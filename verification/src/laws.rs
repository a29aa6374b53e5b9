//! What holds of every run of the service against the in-memory world.

use crate::cache::{
    bumped, count_of, deadline, lookup, removed, stored, CacheKey, CacheMap, CacheValueView, Slot,
};
use crate::crypto::{base32_text, bcrypt_digest, bcrypt_verdict, cost_allowed, otp_uri_text};
use crate::error::{AuthenticationError, ErrorView};
use crate::model::{project, CacheId, Role, SessionView, UserSessionView, UserView};
use crate::protocol::{MailKind, Notice, OutcomeView, RequestView, StepView};
use crate::repository::{changed, new_session, new_user, purgeable, purged, UserChange};
use crate::service::account::{begin_logout_spec, begin_set_otp_secret_spec};
use crate::service::guard::begin_guard_spec;
use crate::service::login::{begin_login_spec, begin_otp_spec};
use crate::service::password::{
    begin_change_password_spec, begin_reset_password_spec, begin_verify_forgot_password_spec,
};
use crate::service::registration::{begin_registration_spec, begin_verify_registration_spec};
use crate::service::{advance_spec, StateView};
use crate::service::session::{
    begin_purge_spec, begin_session_spec, session_ids, AfterPurgeView,
};
use crate::world::{drop_all, id_of, seconds_left, MailView, WorldView, STEPS};
use vstd::prelude::*;

verus! {

/// A login with the right password of a user who has no one-time-password
/// secret, whose account is not frozen and who is not blocked opens exactly
/// one session, which is the user's, caches its projection, and clears the
/// count of failed logins. The run needs two random blocks of 16 bytes or
/// more, and the id made of the second must not be the id of a session.
pub proof fn login_without_otp_opens_one_session(
    w: WorldView,
    user: UserView,
    email: Seq<char>,
    password: Seq<char>,
    remember: bool,
    now: u64,
    entropy: Seq<Seq<u8>>,
)
    requires
        w.consistent(),
        w.store.find_user_by_email(email) == Ok::<UserView, ErrorView>(user),
        user.otp_secret is None,
        !user.frozen,
        bcrypt_verdict(password, user.password),
        count_of(w.cache, CacheId::LoginAttempts, user.id, now) < w.config.login_attempt_limit,
        entropy.len() >= 2,
        entropy[0].len() >= 16,
        entropy[1].len() >= 16,
        !w.store.has_session(id_of(entropy[1])),
    ensures
        ({
            let start = begin_login_spec(email, password, remember);
            let end = w.run(start.0, start.1, now, entropy, STEPS as nat);
            let session = new_session(
                id_of(entropy[1]),
                user,
                id_of(entropy[0]),
                remember,
                now,
                w.config.session_ttl,
            );
            &&& end.1 == Ok::<OutcomeView, ErrorView>(
                OutcomeView::SessionEstablished { session, user_session: project(session, user) },
            )
            &&& end.0.store.sessions == w.store.sessions.push(session)
            &&& end.0.store.users == w.store.users
            &&& end.0.outbox == w.outbox
            &&& end.0.cache == removed(
                stored(
                    w.cache,
                    CacheId::Session,
                    session.id,
                    CacheValueView::Session(project(session, user)),
                    Some(seconds_left(session.expires_at, now)),
                    now,
                ),
                CacheId::LoginAttempts,
                user.id,
            )
            &&& !end.0.cache.contains_key((CacheId::LoginAttempts, user.id))
        }),
{
    reveal_with_fuel(WorldView::run, 8);
}

/// Whether two caches hold the same sessions.
pub open spec fn same_cached_sessions(a: CacheMap, b: CacheMap) -> bool {
    forall|id: Seq<char>|
        (#[trigger] a.contains_key((CacheId::Session, id)) <==> b.contains_key(
            (CacheId::Session, id),
        )) && (a.contains_key((CacheId::Session, id)) ==> a[(CacheId::Session, id)] == b[(
            CacheId::Session,
            id,
        )])
}

/// A login of a user who has a one-time-password secret opens no session,
/// whatever the password: the repository and the cached sessions are as
/// before. With the right
/// password, an account that is not frozen and a user who is not blocked, the
/// login hands out the token made of the first random block, and the cache
/// holds the user's id under that token as a one-time-password token, so
/// that only redeeming the token leads on.
pub proof fn login_with_otp_hands_out_a_token(
    w: WorldView,
    user: UserView,
    email: Seq<char>,
    password: Seq<char>,
    remember: bool,
    now: u64,
    entropy: Seq<Seq<u8>>,
)
    requires
        w.consistent(),
        w.store.find_user_by_email(email) == Ok::<UserView, ErrorView>(user),
        user.otp_secret is Some,
    ensures
        ({
            let start = begin_login_spec(email, password, remember);
            let end = w.run(start.0, start.1, now, entropy, STEPS as nat);
            let token = id_of(entropy[0]);
            &&& end.0.store == w.store
            &&& !(end.1 matches Ok(OutcomeView::SessionEstablished { .. }))
            &&& same_cached_sessions(end.0.cache, w.cache)
            &&& (!user.frozen && bcrypt_verdict(password, user.password) && count_of(
                w.cache,
                CacheId::LoginAttempts,
                user.id,
                now,
            ) < w.config.login_attempt_limit && entropy.len() >= 1 && entropy[0].len() >= 16) ==> {
                &&& end.1 == Ok::<OutcomeView, ErrorView>(
                    OutcomeView::OtpRequired { username: user.username, token, remember },
                )
                &&& end.0.cache == stored(
                    w.cache,
                    CacheId::OTPToken,
                    token,
                    CacheValueView::Text(user.id),
                    Some(w.config.otp_token_ttl),
                    now,
                )
            }
        }),
{
    reveal_with_fuel(WorldView::run, 8);
}

/// Whether a step asks whom a one-time-password token stands for.
pub open spec fn resolves_otp_token(step: StepView) -> bool {
    match step {
        StepView::Ask(RequestView::GetToken { cache_id, .. }) => cache_id == CacheId::OTPToken,
        StepView::Ask(RequestView::TakeToken { cache_id, .. }) => cache_id == CacheId::OTPToken,
        _ => false,
    }
}

proof fn login_resolves_no_otp_token(
    config: crate::protocol::ConfigView,
    state: crate::service::login::LoginStateView,
    reply: crate::protocol::ReplyView,
)
    ensures
        !resolves_otp_token(crate::service::login::login_spec(config, state, reply).1),
{
}

proof fn registration_resolves_no_otp_token(
    config: crate::protocol::ConfigView,
    now: u64,
    state: crate::service::registration::RegistrationStateView,
    reply: crate::protocol::ReplyView,
)
    ensures
        !resolves_otp_token(
            crate::service::registration::registration_spec(config, now, state, reply).1,
        ),
{
}

proof fn password_resolves_no_otp_token(
    config: crate::protocol::ConfigView,
    now: u64,
    state: crate::service::password::PasswordStateView,
    reply: crate::protocol::ReplyView,
)
    ensures
        !resolves_otp_token(crate::service::password::password_spec(config, now, state, reply).1),
{
}

proof fn account_resolves_no_otp_token(
    config: crate::protocol::ConfigView,
    state: crate::service::account::AccountStateView,
    reply: crate::protocol::ReplyView,
)
    ensures
        !resolves_otp_token(crate::service::account::account_spec(config, state, reply).1),
{
}

/// Only redeeming a one-time password resolves a one-time-password token:
/// no other operation ever asks whom such a token stands for. The token
/// that a login hands out therefore leads on by `verify_otp` alone.
pub proof fn only_redeeming_resolves_otp_tokens(
    config: crate::protocol::ConfigView,
    now: u64,
    state: StateView,
    reply: crate::protocol::ReplyView,
)
    ensures
        resolves_otp_token(advance_spec(config, now, state, reply).1) ==> state is Otp,
{
    match state {
        StateView::Login(s) => login_resolves_no_otp_token(config, s, reply),
        StateView::Registration(s) => registration_resolves_no_otp_token(config, now, s, reply),
        StateView::Password(s) => password_resolves_no_otp_token(config, now, s, reply),
        StateView::Account(s) => account_resolves_no_otp_token(config, s, reply),
        _ => {},
    }
}

/// Dropping cached sessions removes the sessions with the given ids and
/// nothing else, and changes no value.
pub proof fn dropping_removes_only_the_named(m: CacheMap, ids: Seq<Seq<char>>, k: CacheKey)
    ensures
        drop_all(m, ids).contains_key(k) <==> m.contains_key(k) && !(k.0 == CacheId::Session
            && ids.contains(k.1)),
        drop_all(m, ids).contains_key(k) ==> drop_all(m, ids)[k] == m[k],
    decreases ids.len(),
{
    if ids.len() > 0 {
        dropping_removes_only_the_named(m, ids.drop_last(), k);
        assert forall|x: Seq<char>| ids.contains(x) <==> ids.drop_last().contains(x) || x
            == ids.last() by {
            if ids.contains(x) {
                let i = choose|i: int| 0 <= i < ids.len() && ids[i] == x;
                if i < ids.len() - 1 {
                    assert(ids.drop_last()[i] == x);
                }
            }
            if ids.drop_last().contains(x) {
                let i = choose|i: int| 0 <= i < ids.drop_last().len() && ids.drop_last()[i] == x;
                assert(ids[i] == x);
            }
            if x == ids.last() {
                assert(ids[ids.len() - 1] == x);
            }
        }
    }
}

/// Dropping cached sessions puts nothing into the cache: what was not
/// there before is not there after.
pub proof fn dropping_adds_nothing(k: CacheKey)
    ensures
        forall|m: CacheMap, ids: Seq<Seq<char>>|
            !m.contains_key(k) ==> !(#[trigger] drop_all(m, ids)).contains_key(k),
{
    assert forall|m: CacheMap, ids: Seq<Seq<char>>| !m.contains_key(k) implies !(
    #[trigger] drop_all(m, ids)).contains_key(k) by {
        dropping_removes_only_the_named(m, ids, k);
    }
}

/// A registration token is redeemed at most once: after a confirmation
/// that succeeded, every further confirmation with the same token ends with
/// `InvalidToken(RegToken)`.
pub proof fn registration_token_is_single_use(
    w: WorldView,
    token: Seq<char>,
    now: u64,
    entropy: Seq<Seq<u8>>,
    later: u64,
    more: Seq<Seq<u8>>,
)
    requires
        w.consistent(),
        ({
            let start = begin_verify_registration_spec(token);
            w.run(start.0, start.1, now, entropy, STEPS as nat).1 is Ok
        }),
    ensures
        ({
            let start = begin_verify_registration_spec(token);
            let once = w.run(start.0, start.1, now, entropy, STEPS as nat);
            &&& !once.0.cache.contains_key((CacheId::RegToken, token))
            &&& once.0.run(start.0, start.1, later, more, STEPS as nat).1 == Err::<
                OutcomeView,
                ErrorView,
            >(ErrorView::Authentication(AuthenticationError::InvalidToken(CacheId::RegToken)))
        }),
{
    reveal_with_fuel(WorldView::run, 7);
}

/// A one-time-password token is redeemed at most once: after a one-time
/// password that was accepted, every further attempt with the same token
/// ends with `InvalidToken(OTPToken)`.
pub proof fn otp_token_is_single_use(
    w: WorldView,
    password: Seq<char>,
    token: Seq<char>,
    remember: bool,
    now: u64,
    entropy: Seq<Seq<u8>>,
    again: Seq<char>,
    later: u64,
    more: Seq<Seq<u8>>,
)
    requires
        w.consistent(),
        ({
            let start = begin_otp_spec(password, token, remember);
            w.run(start.0, start.1, now, entropy, STEPS as nat).1 is Ok
        }),
    ensures
        ({
            let start = begin_otp_spec(password, token, remember);
            let once = w.run(start.0, start.1, now, entropy, STEPS as nat);
            let next = begin_otp_spec(again, token, remember);
            &&& !once.0.cache.contains_key((CacheId::OTPToken, token))
            &&& once.0.run(next.0, next.1, later, more, STEPS as nat).1 == Err::<
                OutcomeView,
                ErrorView,
            >(ErrorView::Authentication(AuthenticationError::InvalidToken(CacheId::OTPToken)))
        }),
{
    reveal_with_fuel(WorldView::run, 12);
}

/// A password token is redeemed at most once by replacing a forgotten
/// password: after one that succeeded, every further attempt with the same
/// token ends with `InvalidToken(PWToken)`.
pub proof fn forgot_password_token_is_single_use(
    w: WorldView,
    password: Seq<char>,
    token: Seq<char>,
    now: u64,
    entropy: Seq<Seq<u8>>,
    again: Seq<char>,
    later: u64,
    more: Seq<Seq<u8>>,
)
    requires
        w.consistent(),
        ({
            let start = begin_verify_forgot_password_spec(password, token);
            w.run(start.0, start.1, now, entropy, STEPS as nat).1 is Ok
        }),
    ensures
        ({
            let start = begin_verify_forgot_password_spec(password, token);
            let once = w.run(start.0, start.1, now, entropy, STEPS as nat);
            let next = begin_verify_forgot_password_spec(again, token);
            &&& !once.0.cache.contains_key((CacheId::PWToken, token))
            &&& once.0.run(next.0, next.1, later, more, STEPS as nat).1 == Err::<
                OutcomeView,
                ErrorView,
            >(ErrorView::Authentication(AuthenticationError::InvalidToken(CacheId::PWToken)))
        }),
{
    reveal_with_fuel(WorldView::run, 14);
    dropping_adds_nothing((CacheId::PWToken, token));
}

/// A password token is redeemed at most once by a reset: after a reset
/// that succeeded, every further reset with the same token ends with
/// `InvalidToken(PWToken)`.
pub proof fn reset_password_token_is_single_use(
    w: WorldView,
    token: Seq<char>,
    now: u64,
    entropy: Seq<Seq<u8>>,
    later: u64,
    more: Seq<Seq<u8>>,
)
    requires
        w.consistent(),
        ({
            let start = begin_reset_password_spec(token);
            w.run(start.0, start.1, now, entropy, STEPS as nat).1 is Ok
        }),
    ensures
        ({
            let start = begin_reset_password_spec(token);
            let once = w.run(start.0, start.1, now, entropy, STEPS as nat);
            &&& !once.0.cache.contains_key((CacheId::PWToken, token))
            &&& once.0.run(start.0, start.1, later, more, STEPS as nat).1 == Err::<
                OutcomeView,
                ErrorView,
            >(ErrorView::Authentication(AuthenticationError::InvalidToken(CacheId::PWToken)))
        }),
{
    reveal_with_fuel(WorldView::run, 12);
    dropping_adds_nothing((CacheId::PWToken, token));
}

/// A login with a wrong password of a user whose account is not frozen
/// and who is not blocked ends with `InvalidCredentials` and is put on
/// record: the count of the user's failed logins grows by one, and nothing
/// else changes.
pub proof fn failed_login_is_counted(
    w: WorldView,
    user: UserView,
    email: Seq<char>,
    password: Seq<char>,
    remember: bool,
    now: u64,
    entropy: Seq<Seq<u8>>,
)
    requires
        w.consistent(),
        w.store.find_user_by_email(email) == Ok::<UserView, ErrorView>(user),
        !user.frozen,
        !bcrypt_verdict(password, user.password),
        count_of(w.cache, CacheId::LoginAttempts, user.id, now) < w.config.login_attempt_limit,
    ensures
        ({
            let start = begin_login_spec(email, password, remember);
            let end = w.run(start.0, start.1, now, entropy, STEPS as nat);
            &&& end.1 == Err::<OutcomeView, ErrorView>(
                ErrorView::Authentication(AuthenticationError::InvalidCredentials),
            )
            &&& end.0 == w.with_cache(
                bumped(
                    w.cache,
                    CacheId::LoginAttempts,
                    user.id,
                    w.config.login_attempt_window,
                    now,
                ),
            )
        }),
{
    reveal_with_fuel(WorldView::run, 6);
}

/// Once the failed logins on record have reached the limit, a login is
/// refused with `AuthBlocked`, whatever the password, and changes nothing.
pub proof fn blocked_login_is_refused(
    w: WorldView,
    user: UserView,
    email: Seq<char>,
    password: Seq<char>,
    remember: bool,
    now: u64,
    entropy: Seq<Seq<u8>>,
)
    requires
        w.consistent(),
        w.store.find_user_by_email(email) == Ok::<UserView, ErrorView>(user),
        !user.frozen,
        count_of(w.cache, CacheId::LoginAttempts, user.id, now) >= w.config.login_attempt_limit,
    ensures
        ({
            let start = begin_login_spec(email, password, remember);
            let end = w.run(start.0, start.1, now, entropy, STEPS as nat);
            &&& end.1 == Err::<OutcomeView, ErrorView>(
                ErrorView::Authentication(AuthenticationError::AuthBlocked),
            )
            &&& end.0 == w
        }),
{
    reveal_with_fuel(WorldView::run, 4);
}

/// One login: the password that was tried, when, and the random blocks at
/// hand.
pub struct Attempt {
    pub password: Seq<char>,
    pub now: u64,
    pub entropy: Seq<Seq<u8>>,
}

/// The world after the given logins with one email, one after the other.
pub open spec fn after_logins(w: WorldView, email: Seq<char>, attempts: Seq<Attempt>) -> WorldView
    decreases attempts.len(),
{
    if attempts.len() == 0 {
        w
    } else {
        let start = begin_login_spec(email, attempts.last().password, false);
        after_logins(w, email, attempts.drop_last()).run(
            start.0,
            start.1,
            attempts.last().now,
            attempts.last().entropy,
            STEPS as nat,
        ).0
    }
}

/// The second at which the count of failed logins lapses that starts with a
/// failure at `first`.
pub open spec fn window_end(w: WorldView, first: u64) -> u64 {
    deadline(first, Some(w.config.login_attempt_window))->0
}

proof fn failures_add_up(w: WorldView, user: UserView, email: Seq<char>, attempts: Seq<Attempt>)
    requires
        w.consistent(),
        w.store.find_user_by_email(email) == Ok::<UserView, ErrorView>(user),
        !user.frozen,
        1 <= attempts.len() <= w.config.login_attempt_limit,
        lookup(w.cache, CacheId::LoginAttempts, user.id, attempts[0].now) is None,
        forall|i: int|
            0 <= i < attempts.len() ==> !bcrypt_verdict(
                (#[trigger] attempts[i]).password,
                user.password,
            ),
        forall|i: int|
            1 <= i < attempts.len() ==> (#[trigger] attempts[i]).now < window_end(
                w,
                attempts[0].now,
            ),
    ensures
        after_logins(w, email, attempts) == w.with_cache(
            w.cache.insert(
                (CacheId::LoginAttempts, user.id),
                Slot {
                    value: CacheValueView::Number(attempts.len() as u64),
                    expires_at: Some(window_end(w, attempts[0].now)),
                },
            ),
        ),
    decreases attempts.len(),
{
    let last = attempts.last();
    let earlier = attempts.drop_last();
    if attempts.len() == 1 {
        assert(earlier.len() == 0);
        assert(after_logins(w, email, earlier) == w);
        failed_login_is_counted(w, user, email, last.password, false, last.now, last.entropy);
    } else {
        assert(earlier[0] == attempts[0]);
        assert forall|i: int| 0 <= i < earlier.len() implies !bcrypt_verdict(
            (#[trigger] earlier[i]).password,
            user.password,
        ) by {
            assert(earlier[i] == attempts[i]);
        }
        assert forall|i: int| 1 <= i < earlier.len() implies (#[trigger] earlier[i]).now
            < window_end(w, earlier[0].now) by {
            assert(earlier[i] == attempts[i]);
        }
        failures_add_up(w, user, email, earlier);
        let before = after_logins(w, email, earlier);
        assert(last == attempts[attempts.len() - 1]);
        assert(before.cache[(CacheId::LoginAttempts, user.id)].live(last.now));
        failed_login_is_counted(before, user, email, last.password, false, last.now, last.entropy);
        assert(after_logins(w, email, attempts).cache =~= w.cache.insert(
            (CacheId::LoginAttempts, user.id),
            Slot {
                value: CacheValueView::Number(attempts.len() as u64),
                expires_at: Some(window_end(w, attempts[0].now)),
            },
        ));
    }
}

/// After as many failed logins in a row as the limit allows, all within
/// the window that the first of them opened, the next login is refused with
/// `AuthBlocked`, even with the right password, for as long as the window
/// lasts, and changes nothing: no session is stored or cached.
pub proof fn repeated_failures_block_login(
    w: WorldView,
    user: UserView,
    email: Seq<char>,
    attempts: Seq<Attempt>,
    password: Seq<char>,
    remember: bool,
    now: u64,
    entropy: Seq<Seq<u8>>,
)
    requires
        w.consistent(),
        w.store.find_user_by_email(email) == Ok::<UserView, ErrorView>(user),
        !user.frozen,
        attempts.len() == w.config.login_attempt_limit,
        attempts.len() >= 1,
        lookup(w.cache, CacheId::LoginAttempts, user.id, attempts[0].now) is None,
        forall|i: int|
            0 <= i < attempts.len() ==> !bcrypt_verdict(
                (#[trigger] attempts[i]).password,
                user.password,
            ),
        forall|i: int|
            1 <= i < attempts.len() ==> (#[trigger] attempts[i]).now < window_end(
                w,
                attempts[0].now,
            ),
        now < window_end(w, attempts[0].now),
    ensures
        ({
            let start = begin_login_spec(email, password, remember);
            let blocked = after_logins(w, email, attempts);
            &&& blocked.run(start.0, start.1, now, entropy, STEPS as nat).1 == Err::<
                OutcomeView,
                ErrorView,
            >(ErrorView::Authentication(AuthenticationError::AuthBlocked))
            &&& blocked.run(start.0, start.1, now, entropy, STEPS as nat).0 == blocked
            &&& blocked.store == w.store
        }),
{
    failures_add_up(w, user, email, attempts);
    let blocked = after_logins(w, email, attempts);
    assert(blocked.cache[(CacheId::LoginAttempts, user.id)].live(now));
    blocked_login_is_refused(blocked, user, email, password, remember, now, entropy);
}

/// After as many failed logins in a row as the limit allows, a login with
/// the right password succeeds again once the window has passed that the
/// first failure opened: it opens exactly one session.
pub proof fn login_succeeds_once_the_window_has_passed(
    w: WorldView,
    user: UserView,
    email: Seq<char>,
    attempts: Seq<Attempt>,
    password: Seq<char>,
    remember: bool,
    now: u64,
    entropy: Seq<Seq<u8>>,
)
    requires
        w.consistent(),
        w.store.find_user_by_email(email) == Ok::<UserView, ErrorView>(user),
        user.otp_secret is None,
        !user.frozen,
        attempts.len() == w.config.login_attempt_limit,
        attempts.len() >= 1,
        lookup(w.cache, CacheId::LoginAttempts, user.id, attempts[0].now) is None,
        forall|i: int|
            0 <= i < attempts.len() ==> !bcrypt_verdict(
                (#[trigger] attempts[i]).password,
                user.password,
            ),
        forall|i: int|
            1 <= i < attempts.len() ==> (#[trigger] attempts[i]).now < window_end(
                w,
                attempts[0].now,
            ),
        now >= window_end(w, attempts[0].now),
        bcrypt_verdict(password, user.password),
        entropy.len() >= 2,
        entropy[0].len() >= 16,
        entropy[1].len() >= 16,
        !w.store.has_session(id_of(entropy[1])),
    ensures
        ({
            let start = begin_login_spec(email, password, remember);
            let blocked = after_logins(w, email, attempts);
            let end = blocked.run(start.0, start.1, now, entropy, STEPS as nat);
            let session = new_session(
                id_of(entropy[1]),
                user,
                id_of(entropy[0]),
                remember,
                now,
                w.config.session_ttl,
            );
            &&& end.1 == Ok::<OutcomeView, ErrorView>(
                OutcomeView::SessionEstablished { session, user_session: project(session, user) },
            )
            &&& end.0.store.sessions == w.store.sessions.push(session)
            &&& !end.0.cache.contains_key((CacheId::LoginAttempts, user.id))
        }),
{
    failures_add_up(w, user, email, attempts);
    let blocked = after_logins(w, email, attempts);
    assert(!blocked.cache[(CacheId::LoginAttempts, user.id)].live(now));
    login_without_otp_opens_one_session(blocked, user, email, password, remember, now, entropy);
}

/// When the window has passed, the failed logins no longer count.
pub proof fn lapsed_failures_do_not_count(w: WorldView, user_id: Seq<char>, first: u64, now: u64)
    requires
        w.cache.contains_key((CacheId::LoginAttempts, user_id)),
        w.cache[(CacheId::LoginAttempts, user_id)].expires_at == Some(window_end(w, first)),
        now >= window_end(w, first),
    ensures
        count_of(w.cache, CacheId::LoginAttempts, user_id, now) == 0,
{
}

/// The sessions that a purge hands back are the sessions that it ended.
pub proof fn purged_are_the_purgeable(
    sessions: Seq<SessionView>,
    user_id: Seq<char>,
    skip: Option<Seq<char>>,
    now: u64,
    id: Seq<char>,
)
    ensures
        session_ids(purged(sessions, user_id, skip, now)).contains(id) <==> exists|i: int|
            0 <= i < sessions.len() && purgeable(#[trigger] sessions[i], user_id, skip, now)
                && sessions[i].id == id,
    decreases sessions.len(),
{
    let ended = purged(sessions, user_id, skip, now);
    if sessions.len() > 0 {
        let rest = purged(sessions.drop_last(), user_id, skip, now);
        purged_are_the_purgeable(sessions.drop_last(), user_id, skip, now, id);
        if session_ids(ended).contains(id) {
            let j = choose|j: int| 0 <= j < session_ids(ended).len() && session_ids(ended)[j] == id;
            if purgeable(sessions.last(), user_id, skip, now) && j == rest.len() {
                assert(ended[j] == sessions.last().expired(now));
                assert(sessions[sessions.len() - 1].id == id);
            } else {
                assert(session_ids(rest)[j] == id);
                let i = choose|i: int|
                    0 <= i < sessions.drop_last().len() && purgeable(
                        #[trigger] sessions.drop_last()[i],
                        user_id,
                        skip,
                        now,
                    ) && sessions.drop_last()[i].id == id;
                assert(sessions[i] == sessions.drop_last()[i]);
            }
        }
        if exists|i: int|
            0 <= i < sessions.len() && purgeable(#[trigger] sessions[i], user_id, skip, now)
                && sessions[i].id == id {
            let i = choose|i: int|
                0 <= i < sessions.len() && purgeable(#[trigger] sessions[i], user_id, skip, now)
                    && sessions[i].id == id;
            if i == sessions.len() - 1 {
                assert(ended == rest.push(sessions.last().expired(now)));
                assert(session_ids(ended)[rest.len() as int] == id);
            } else {
                assert(sessions.drop_last()[i] == sessions[i]);
                let j = choose|j: int|
                    0 <= j < session_ids(rest).len() && session_ids(rest)[j] == id;
                assert(session_ids(ended)[j] == id);
            }
        }
    }
}

/// A purge of a user's sessions that spares `skip` leaves none of the
/// user's other sessions running: each is marked as ended in the repository,
/// and the cached entry of each session that the purge ended is gone. The
/// spared session, the sessions of other users and everything else in the
/// cache are as before.
pub proof fn purge_ends_every_other_session(
    w: WorldView,
    user_id: Seq<char>,
    skip: Option<Seq<char>>,
    now: u64,
    entropy: Seq<Seq<u8>>,
)
    requires
        w.consistent(),
    ensures
        ({
            let start = begin_purge_spec(
                user_id,
                skip,
                AfterPurgeView::Finish { notice: Notice::SessionsPurged },
            );
            let end = w.run(start.0, start.1, now, entropy, STEPS as nat);
            &&& end.1 == Ok::<OutcomeView, ErrorView>(
                OutcomeView::Message { notice: Notice::SessionsPurged },
            )
            &&& end.0.store.users == w.store.users
            &&& end.0.outbox == w.outbox
            &&& end.0.store.sessions.len() == w.store.sessions.len()
            &&& forall|i: int|
                0 <= i < w.store.sessions.len() ==> {
                    let before = #[trigger] w.store.sessions[i];
                    let after = end.0.store.sessions[i];
                    if before.user_id == user_id && skip != Some(before.id) {
                        &&& !after.live(now)
                        &&& after == (if before.live(now) {
                            before.expired(now)
                        } else {
                            before
                        })
                        &&& before.live(now) ==> !end.0.cache.contains_key(
                            (CacheId::Session, before.id),
                        )
                    } else {
                        after == before
                    }
                }
            &&& forall|k: CacheKey| #[trigger]
                end.0.cache.contains_key(k) ==> w.cache.contains_key(k) && end.0.cache[k]
                    == w.cache[k]
            &&& forall|k: CacheKey|
                k.0 != CacheId::Session || skip == Some(k.1) ==> (#[trigger] end.0.cache.contains_key(
                    k,
                ) <==> w.cache.contains_key(k))
        }),
{
    reveal_with_fuel(WorldView::run, 4);
    let ended = purged(w.store.sessions, user_id, skip, now);
    let ids = session_ids(ended);
    let cache = drop_all(w.cache, ids);
    assert forall|k: CacheKey| true implies (#[trigger] cache.contains_key(k) <==> w.cache.contains_key(
        k,
    ) && !(k.0 == CacheId::Session && ids.contains(k.1))) && (cache.contains_key(k) ==> cache[k]
        == w.cache[k]) by {
        dropping_removes_only_the_named(w.cache, ids, k);
    }
    assert forall|i: int| 0 <= i < w.store.sessions.len() && purgeable(
        #[trigger] w.store.sessions[i],
        user_id,
        skip,
        now,
    ) implies ids.contains(w.store.sessions[i].id) by {
        purged_are_the_purgeable(w.store.sessions, user_id, skip, now, w.store.sessions[i].id);
    }
    assert forall|k: CacheKey| skip == Some(k.1) implies !ids.contains(k.1) by {
        purged_are_the_purgeable(w.store.sessions, user_id, skip, now, k.1);
    }
}

/// A session that was just opened passes the guard: with the session's id
/// as the cookie and its CSRF token as the header, the guard lets the
/// request pass as the user the session was opened for, and changes nothing.
/// This holds for a user whose account is not frozen and whose role is at
/// least the required one, while the session has not ended.
pub proof fn opened_session_passes_the_guard(
    w: WorldView,
    user: UserView,
    remember: bool,
    now: u64,
    entropy: Seq<Seq<u8>>,
    required: Role,
    later: u64,
    more: Seq<Seq<u8>>,
)
    requires
        w.consistent(),
        !user.frozen,
        user.role.satisfies(required),
        entropy.len() >= 2,
        entropy[0].len() >= 16,
        entropy[1].len() >= 16,
        !w.store.has_session(id_of(entropy[1])),
        now <= later < crate::repository::session_end(remember, now, w.config.session_ttl),
    ensures
        ({
            let start = begin_session_spec(user, remember, false);
            let opened = w.run(start.0, start.1, now, entropy, STEPS as nat);
            let session = new_session(
                id_of(entropy[1]),
                user,
                id_of(entropy[0]),
                remember,
                now,
                w.config.session_ttl,
            );
            let check = begin_guard_spec(Some(session.id), Some(session.csrf_token), required);
            let passed = opened.0.run(check.0, check.1, later, more, STEPS as nat);
            &&& opened.1 == Ok::<OutcomeView, ErrorView>(
                OutcomeView::SessionEstablished { session, user_session: project(session, user) },
            )
            &&& passed.1 == Ok::<OutcomeView, ErrorView>(
                OutcomeView::Authorized { user_session: project(session, user) },
            )
            &&& project(session, user).user_id == user.id
            &&& passed.0 == opened.0
        }),
{
    reveal_with_fuel(WorldView::run, 5);
}

/// A login with an email that no user has and a login with a wrong
/// password end alike, so that nobody learns from a login which emails are
/// registered.
pub proof fn unknown_email_and_wrong_password_end_alike(
    w: WorldView,
    user: UserView,
    known: Seq<char>,
    unknown: Seq<char>,
    password: Seq<char>,
    remember: bool,
    now: u64,
    entropy: Seq<Seq<u8>>,
)
    requires
        w.consistent(),
        w.store.find_user_by_email(known) == Ok::<UserView, ErrorView>(user),
        !w.store.has_email(unknown),
        !user.frozen,
        !bcrypt_verdict(password, user.password),
        count_of(w.cache, CacheId::LoginAttempts, user.id, now) < w.config.login_attempt_limit,
    ensures
        ({
            let wrong = begin_login_spec(known, password, remember);
            let nobody = begin_login_spec(unknown, password, remember);
            &&& w.run(wrong.0, wrong.1, now, entropy, STEPS as nat).1 == w.run(
                nobody.0,
                nobody.1,
                now,
                entropy,
                STEPS as nat,
            ).1
            &&& w.run(nobody.0, nobody.1, now, entropy, STEPS as nat).1 == Err::<
                OutcomeView,
                ErrorView,
            >(ErrorView::Authentication(AuthenticationError::InvalidCredentials))
            &&& w.run(nobody.0, nobody.1, now, entropy, STEPS as nat).0 == w
        }),
{
    reveal_with_fuel(WorldView::run, 6);
}

/// A frozen account cannot log in, whatever the password, and the attempt
/// changes nothing.
pub proof fn frozen_account_cannot_log_in(
    w: WorldView,
    user: UserView,
    email: Seq<char>,
    password: Seq<char>,
    remember: bool,
    now: u64,
    entropy: Seq<Seq<u8>>,
)
    requires
        w.consistent(),
        w.store.find_user_by_email(email) == Ok::<UserView, ErrorView>(user),
        user.frozen,
    ensures
        ({
            let start = begin_login_spec(email, password, remember);
            let end = w.run(start.0, start.1, now, entropy, STEPS as nat);
            &&& end.1 == Err::<OutcomeView, ErrorView>(
                ErrorView::Authentication(AuthenticationError::AccountFrozen),
            )
            &&& end.0 == w
        }),
{
    reveal_with_fuel(WorldView::run, 3);
}

/// A registration with an email that no user has creates the user,
/// unverified and with the hash of the password, caches a fresh token for
/// the user's id and sends it to the email. The run needs three random
/// blocks of 16 bytes or more, the first of which salts the hash, and the id
/// made of the second must not be the id of a user.
pub proof fn registration_sends_a_token(
    w: WorldView,
    email: Seq<char>,
    username: Seq<char>,
    password: Seq<char>,
    now: u64,
    entropy: Seq<Seq<u8>>,
)
    requires
        w.consistent(),
        !w.store.has_email(email),
        entropy.len() >= 3,
        entropy[0].len() >= 16,
        entropy[1].len() >= 16,
        entropy[2].len() >= 16,
        cost_allowed(w.config.hash_cost),
        !w.store.has_user_id(id_of(entropy[1])),
    ensures
        ({
            let start = begin_registration_spec(email, username, password);
            let hash = bcrypt_digest(password, w.config.hash_cost, entropy[0].take(16));
            let end = w.run(start.0, start.1, now, entropy, STEPS as nat);
            let user = new_user(id_of(entropy[1]), email, username, hash);
            let token = id_of(entropy[2]);
            &&& end.1 == Ok::<OutcomeView, ErrorView>(
                OutcomeView::Message { notice: Notice::RegistrationStarted },
            )
            &&& end.0.store.users == w.store.users.push(user)
            &&& end.0.store.sessions == w.store.sessions
            &&& end.0.cache == stored(
                w.cache,
                CacheId::RegToken,
                token,
                CacheValueView::Text(user.id),
                Some(w.config.reg_token_ttl),
                now,
            )
            &&& end.0.outbox == w.outbox.push(
                MailView { kind: MailKind::RegistrationToken, username, email, text: token },
            )
        }),
{
    reveal_with_fuel(WorldView::run, 8);
}

/// A registration with an email that a user has is refused with
/// `EmailTaken` and changes nothing.
pub proof fn taken_email_is_refused(
    w: WorldView,
    email: Seq<char>,
    username: Seq<char>,
    password: Seq<char>,
    now: u64,
    entropy: Seq<Seq<u8>>,
)
    requires
        w.consistent(),
        w.store.has_email(email),
    ensures
        ({
            let start = begin_registration_spec(email, username, password);
            let end = w.run(start.0, start.1, now, entropy, STEPS as nat);
            &&& end.1 == Err::<OutcomeView, ErrorView>(
                ErrorView::Authentication(AuthenticationError::EmailTaken),
            )
            &&& end.0 == w
        }),
{
    reveal_with_fuel(WorldView::run, 3);
}

/// A one-time password with a token that the cache does not hold, or no
/// longer holds, ends with `InvalidToken(OTPToken)` and changes nothing: no
/// attempt is counted for anybody.
pub proof fn unknown_otp_token_counts_nothing(
    w: WorldView,
    password: Seq<char>,
    token: Seq<char>,
    remember: bool,
    now: u64,
    entropy: Seq<Seq<u8>>,
)
    requires
        w.consistent(),
        lookup(w.cache, CacheId::OTPToken, token, now) is None,
    ensures
        ({
            let start = begin_otp_spec(password, token, remember);
            let end = w.run(start.0, start.1, now, entropy, STEPS as nat);
            &&& end.1 == Err::<OutcomeView, ErrorView>(
                ErrorView::Authentication(AuthenticationError::InvalidToken(CacheId::OTPToken)),
            )
            &&& end.0 == w
        }),
{
    reveal_with_fuel(WorldView::run, 3);
}

/// The guard changes nothing but the cache: whatever comes with a request,
/// the repository and the outbox are as before.
pub proof fn guard_changes_only_the_cache(
    w: WorldView,
    cookie: Option<Seq<char>>,
    header: Option<Seq<char>>,
    required: Role,
    now: u64,
    entropy: Seq<Seq<u8>>,
)
    requires
        w.consistent(),
    ensures
        ({
            let start = begin_guard_spec(cookie, header, required);
            let end = w.run(start.0, start.1, now, entropy, STEPS as nat);
            &&& end.0.store == w.store
            &&& end.0.outbox == w.outbox
            &&& end.0.config == w.config
        }),
{
    reveal_with_fuel(WorldView::run, 5);
}

/// Replacing a forgotten password with a token that stands for a user
/// whose account is not frozen stores the hash of the new password, ends
/// every running session of the user, opens exactly one new session, and
/// uses the token up. The run needs three random blocks of 16 bytes or
/// more, the first of which salts the hash, and the id made of the third
/// must not be the id of a session.
pub proof fn forgotten_password_is_replaced(
    w: WorldView,
    user: UserView,
    password: Seq<char>,
    token: Seq<char>,
    now: u64,
    entropy: Seq<Seq<u8>>,
)
    requires
        w.consistent(),
        lookup(w.cache, CacheId::PWToken, token, now) == Some(CacheValueView::Text(user.id)),
        w.store.find_user(user.id) == Ok::<UserView, ErrorView>(user),
        !user.frozen,
        entropy.len() >= 3,
        entropy[0].len() >= 16,
        entropy[1].len() >= 16,
        entropy[2].len() >= 16,
        cost_allowed(w.config.hash_cost),
        !w.store.has_session(id_of(entropy[2])),
    ensures
        ({
            let start = begin_verify_forgot_password_spec(password, token);
            let hash = bcrypt_digest(password, w.config.hash_cost, entropy[0].take(16));
            let end = w.run(start.0, start.1, now, entropy, STEPS as nat);
            let renewed = changed(user, UserChange::Password(hash));
            let session = new_session(
                id_of(entropy[2]),
                renewed,
                id_of(entropy[1]),
                false,
                now,
                w.config.session_ttl,
            );
            &&& end.1 == Ok::<OutcomeView, ErrorView>(
                OutcomeView::SessionEstablished {
                    session,
                    user_session: project(session, renewed),
                },
            )
            &&& end.0.store.users == w.store.users.update(w.store.user_pos(user.id), renewed)
            &&& end.0.store.sessions == w.store.purge_sessions(user.id, None, now).sessions.push(
                session,
            )
            &&& forall|i: int|
                0 <= i < w.store.sessions.len() && (#[trigger] w.store.sessions[i]).user_id
                    == user.id ==> !end.0.store.sessions[i].live(now)
            &&& !end.0.cache.contains_key((CacheId::PWToken, token))
        }),
{
    reveal_with_fuel(WorldView::run, 14);
    let purged_store = w.store.purge_sessions(user.id, None, now);
    assert forall|id: Seq<char>| purged_store.has_session(id) implies w.store.has_session(id) by {
        let i = choose|i: int|
            0 <= i < purged_store.sessions.len() && (#[trigger] purged_store.sessions[i]).id == id;
        assert(w.store.sessions[i].id == id);
    }
    dropping_adds_nothing((CacheId::PWToken, token));
}

/// Enabling one-time passwords stores the secret made of the next random
/// block, in place of any secret the user had, and hands it out as a URI.
/// Only the new secret counts from then on.
pub proof fn new_secret_replaces_the_old(
    w: WorldView,
    user: UserView,
    now: u64,
    entropy: Seq<Seq<u8>>,
)
    requires
        w.consistent(),
        w.store.find_user(user.id) == Ok::<UserView, ErrorView>(user),
        !user.frozen,
        entropy.len() >= 1,
    ensures
        ({
            let start = begin_set_otp_secret_spec(user.id);
            let end = w.run(start.0, start.1, now, entropy, STEPS as nat);
            let secret = base32_text(entropy[0]);
            let uri = otp_uri_text(crate::world::OTP_KIND@, secret, user.email, w.config.issuer);
            &&& end.1 == Ok::<OutcomeView, ErrorView>(OutcomeView::OtpSecret { uri })
            &&& end.0.store.users == w.store.users.update(
                w.store.user_pos(user.id),
                changed(user, UserChange::Secret(secret)),
            )
            &&& end.0.store.find_user(user.id) == Ok::<UserView, ErrorView>(
                UserView { otp_secret: Some(secret), ..user },
            )
            &&& end.0.cache == w.cache
        }),
{
    reveal_with_fuel(WorldView::run, 6);
    let start = begin_set_otp_secret_spec(user.id);
    let end = w.run(start.0, start.1, now, entropy, STEPS as nat);
    let i = w.store.user_pos(user.id);
    assert(end.0.store.users[i].id == user.id);
    assert(end.0.store.has_user_id(user.id));
    let j = end.0.store.user_pos(user.id);
    if j != i {
        assert(end.0.store.users[j] == w.store.users[j]);
        if j < i {
            assert(w.store.users[j].id != w.store.users[i].id);
        } else {
            assert(w.store.users[i].id != w.store.users[j].id);
        }
    }
}

/// A logout ends the session it is made from: the repository marks it as
/// ended and the cache no longer holds it. Nothing else changes, unless the
/// other sessions are to be purged too.
pub proof fn logout_ends_the_session(
    w: WorldView,
    session: UserSessionView,
    now: u64,
    entropy: Seq<Seq<u8>>,
)
    requires
        w.consistent(),
        w.store.has_session(session.id),
    ensures
        ({
            let start = begin_logout_spec(session, false);
            let end = w.run(start.0, start.1, now, entropy, STEPS as nat);
            let i = w.store.session_pos(session.id);
            &&& end.1 == Ok::<OutcomeView, ErrorView>(
                OutcomeView::Message { notice: Notice::LoggedOut },
            )
            &&& end.0.store.sessions == w.store.sessions.update(
                i,
                w.store.sessions[i].expired(now),
            )
            &&& !end.0.store.sessions[i].live(now)
            &&& end.0.store.users == w.store.users
            &&& end.0.cache == removed(w.cache, CacheId::Session, session.id)
            &&& end.0.outbox == w.outbox
        }),
{
    reveal_with_fuel(WorldView::run, 4);
}

/// A change of password stores the hash of the new password and ends every
/// running session of the user, the one it is made from too.
pub proof fn password_change_ends_every_session(
    w: WorldView,
    user: UserView,
    session: UserSessionView,
    password: Seq<char>,
    now: u64,
    entropy: Seq<Seq<u8>>,
)
    requires
        w.consistent(),
        !session.frozen,
        session.user_id == user.id,
        w.store.find_user(user.id) == Ok::<UserView, ErrorView>(user),
        entropy.len() >= 2,
        entropy[0].len() >= 16,
        entropy[1].len() >= 16,
        cost_allowed(w.config.hash_cost),
    ensures
        ({
            let start = begin_change_password_spec(session, password);
            let hash = bcrypt_digest(password, w.config.hash_cost, entropy[0].take(16));
            let end = w.run(start.0, start.1, now, entropy, STEPS as nat);
            let renewed = changed(user, UserChange::Password(hash));
            let token = id_of(entropy[1]);
            &&& end.1 == Ok::<OutcomeView, ErrorView>(
                OutcomeView::Message { notice: Notice::PasswordChanged },
            )
            &&& end.0.store.users == w.store.users.update(w.store.user_pos(user.id), renewed)
            &&& end.0.store.sessions == w.store.purge_sessions(user.id, None, now).sessions
            &&& forall|i: int|
                0 <= i < w.store.sessions.len() && (#[trigger] w.store.sessions[i]).user_id
                    == user.id ==> !end.0.store.sessions[i].live(now)
            &&& end.0.outbox == w.outbox.push(
                MailView {
                    kind: MailKind::PasswordChangeAlert,
                    username: user.username,
                    email: user.email,
                    text: token,
                },
            )
            &&& lookup(end.0.cache, CacheId::PWToken, token, now) == (if w.config.pw_token_ttl
                > 0 && now < u64::MAX {
                Some(CacheValueView::Text(user.id))
            } else {
                None
            })
        }),
{
    reveal_with_fuel(WorldView::run, 9);
}

/// Whatever is asked of the world, the repository goes on holding no id
/// and no email twice.
pub proof fn every_answer_keeps_the_repository_consistent(
    w: WorldView,
    request: RequestView,
    now: u64,
    entropy: Seq<Seq<u8>>,
)
    requires
        w.consistent(),
    ensures
        w.perform(request, now, entropy).world.consistent(),
        w.perform(request, now, entropy).world.config == w.config,
{
    let after = w.perform(request, now, entropy).world;
    match request {
        RequestView::PurgeSessions { user_id, skip } => {
            assert forall|i: int, j: int| 0 <= i < j < after.store.sessions.len() implies (
            #[trigger] after.store.sessions[i]).id != (#[trigger] after.store.sessions[j]).id by {
                assert(after.store.sessions[i].id == w.store.sessions[i].id);
                assert(after.store.sessions[j].id == w.store.sessions[j].id);
            }
        },
        _ => {},
    }
}

/// However an operation goes on, from whatever point, the repository goes
/// on holding no id and no email twice, and the settings stay.
pub proof fn every_run_keeps_the_repository_consistent(
    w: WorldView,
    state: StateView,
    step: StepView,
    now: u64,
    entropy: Seq<Seq<u8>>,
    budget: nat,
)
    requires
        w.consistent(),
    ensures
        w.run(state, step, now, entropy, budget).0.consistent(),
        w.run(state, step, now, entropy, budget).0.config == w.config,
    decreases budget,
{
    match step {
        StepView::Done(_) => {},
        StepView::Ask(request) => {
            if budget > 0 {
                every_answer_keeps_the_repository_consistent(w, request, now, entropy);
                let effect = w.perform(request, now, entropy);
                let next = advance_spec(w.config, now, state, effect.reply);
                every_run_keeps_the_repository_consistent(
                    effect.world,
                    next.0,
                    next.1,
                    now,
                    effect.entropy,
                    (budget - 1) as nat,
                );
            }
        },
    }
}

/// A login with the right password of a user who has no
/// one-time-password secret, whose account is not frozen and who is not
/// blocked never opens more than one session: where it ends well it has
/// stored exactly one session, cached it and cleared the count of failed
/// logins, and where it does not, no session is stored. It ends well unless
/// a random block is missing or too short, or the id made of one is in use.
pub proof fn login_without_otp_opens_at_most_one_session(
    w: WorldView,
    user: UserView,
    email: Seq<char>,
    password: Seq<char>,
    remember: bool,
    now: u64,
    entropy: Seq<Seq<u8>>,
)
    requires
        w.consistent(),
        w.store.find_user_by_email(email) == Ok::<UserView, ErrorView>(user),
        user.otp_secret is None,
        !user.frozen,
        bcrypt_verdict(password, user.password),
        count_of(w.cache, CacheId::LoginAttempts, user.id, now) < w.config.login_attempt_limit,
    ensures
        ({
            let start = begin_login_spec(email, password, remember);
            let end = w.run(start.0, start.1, now, entropy, STEPS as nat);
            &&& end.0.store.users == w.store.users
            &&& match end.1 {
                Ok(OutcomeView::SessionEstablished { session, user_session }) => {
                    &&& end.0.store.sessions == w.store.sessions.push(session)
                    &&& session.user_id == user.id
                    &&& session.permanent == remember
                    &&& user_session == project(session, user)
                    &&& lookup(end.0.cache, CacheId::Session, session.id, now) == (if now
                        < session.expires_at {
                        Some(CacheValueView::Session(user_session))
                    } else {
                        None
                    })
                    &&& !end.0.cache.contains_key((CacheId::LoginAttempts, user.id))
                },
                Ok(_) => false,
                Err(_) => {
                    &&& end.0 == w
                    &&& entropy.len() < 2 || entropy[0].len() < 16 || entropy[1].len() < 16
                        || w.store.has_session(id_of(entropy[1]))
                },
            }
        }),
{
    reveal_with_fuel(WorldView::run, 8);
}

/// The guard sees of a world only its repository and its cached sessions:
/// in two worlds that agree on them it decides alike.
pub proof fn guard_sees_only_sessions(
    a: WorldView,
    b: WorldView,
    cookie: Option<Seq<char>>,
    header: Option<Seq<char>>,
    required: Role,
    now: u64,
    entropy: Seq<Seq<u8>>,
)
    requires
        a.store == b.store,
        a.config == b.config,
        same_cached_sessions(a.cache, b.cache),
    ensures
        ({
            let start = begin_guard_spec(cookie, header, required);
            a.run(start.0, start.1, now, entropy, STEPS as nat).1 == b.run(
                start.0,
                start.1,
                now,
                entropy,
                STEPS as nat,
            ).1
        }),
{
    reveal_with_fuel(WorldView::run, 5);
    match cookie {
        Some(id) => {
            assert(a.cache.contains_key((CacheId::Session, id)) <==> b.cache.contains_key(
                (CacheId::Session, id),
            ));
        },
        None => {},
    }
}

/// The token that a login hands out where a one-time password is owed
/// opens nothing: whatever the guard is shown after the login, the token
/// itself as the cookie included, it decides as it did before the login.
pub proof fn otp_token_opens_nothing(
    w: WorldView,
    user: UserView,
    email: Seq<char>,
    password: Seq<char>,
    remember: bool,
    now: u64,
    entropy: Seq<Seq<u8>>,
    cookie: Option<Seq<char>>,
    header: Option<Seq<char>>,
    required: Role,
    later: u64,
    more: Seq<Seq<u8>>,
)
    requires
        w.consistent(),
        w.store.find_user_by_email(email) == Ok::<UserView, ErrorView>(user),
        user.otp_secret is Some,
    ensures
        ({
            let start = begin_login_spec(email, password, remember);
            let end = w.run(start.0, start.1, now, entropy, STEPS as nat).0;
            let check = begin_guard_spec(cookie, header, required);
            end.run(check.0, check.1, later, more, STEPS as nat).1 == w.run(
                check.0,
                check.1,
                later,
                more,
                STEPS as nat,
            ).1
        }),
{
    login_with_otp_hands_out_a_token(w, user, email, password, remember, now, entropy);
    let start = begin_login_spec(email, password, remember);
    let end = w.run(start.0, start.1, now, entropy, STEPS as nat).0;
    every_run_keeps_the_repository_consistent(w, start.0, start.1, now, entropy, STEPS as nat);
    guard_sees_only_sessions(end, w, cookie, header, required, later, more);
}

/// The token that a login hands out where a one-time password is owed is
/// no session: shown to the guard as the cookie, with whatever header, it
/// ends with `Unauthenticated`, unless a session with that very id was
/// stored or cached before the login.
pub proof fn otp_token_is_no_session(
    w: WorldView,
    user: UserView,
    email: Seq<char>,
    password: Seq<char>,
    remember: bool,
    now: u64,
    entropy: Seq<Seq<u8>>,
    header: Seq<char>,
    required: Role,
    later: u64,
    more: Seq<Seq<u8>>,
)
    requires
        w.consistent(),
        w.store.find_user_by_email(email) == Ok::<UserView, ErrorView>(user),
        user.otp_secret is Some,
        entropy.len() >= 1,
        !w.store.has_session(id_of(entropy[0])),
        !w.cache.contains_key((CacheId::Session, id_of(entropy[0]))),
    ensures
        ({
            let start = begin_login_spec(email, password, remember);
            let end = w.run(start.0, start.1, now, entropy, STEPS as nat).0;
            let check = begin_guard_spec(Some(id_of(entropy[0])), Some(header), required);
            end.run(check.0, check.1, later, more, STEPS as nat).1 == Err::<
                OutcomeView,
                ErrorView,
            >(ErrorView::Authentication(AuthenticationError::Unauthenticated))
        }),
{
    otp_token_opens_nothing(
        w,
        user,
        email,
        password,
        remember,
        now,
        entropy,
        Some(id_of(entropy[0])),
        Some(header),
        required,
        later,
        more,
    );
    reveal_with_fuel(WorldView::run, 5);
}

/// A session that was just opened passes the guard with its own CSRF token
/// only: any other token in the header ends with `InvalidCsrfHeader`, and a
/// request without the header does too.
pub proof fn opened_session_needs_its_csrf_token(
    w: WorldView,
    user: UserView,
    remember: bool,
    now: u64,
    entropy: Seq<Seq<u8>>,
    required: Role,
    header: Option<Seq<char>>,
    later: u64,
    more: Seq<Seq<u8>>,
)
    requires
        w.consistent(),
        entropy.len() >= 2,
        entropy[0].len() >= 16,
        entropy[1].len() >= 16,
        !w.store.has_session(id_of(entropy[1])),
        header != Some(id_of(entropy[0])),
        now <= later < crate::repository::session_end(remember, now, w.config.session_ttl),
    ensures
        ({
            let start = begin_session_spec(user, remember, false);
            let opened = w.run(start.0, start.1, now, entropy, STEPS as nat);
            let check = begin_guard_spec(Some(id_of(entropy[1])), header, required);
            opened.0.run(check.0, check.1, later, more, STEPS as nat).1 == Err::<
                OutcomeView,
                ErrorView,
            >(ErrorView::Authentication(AuthenticationError::InvalidCsrfHeader))
        }),
{
    reveal_with_fuel(WorldView::run, 5);
}

/// Without a session cookie nobody is logged in, whatever the world holds
/// and whatever the header says.
pub proof fn request_without_cookie_is_unauthenticated(
    w: WorldView,
    header: Option<Seq<char>>,
    required: Role,
    now: u64,
    entropy: Seq<Seq<u8>>,
)
    ensures
        ({
            let check = begin_guard_spec(None, header, required);
            &&& w.run(check.0, check.1, now, entropy, STEPS as nat).1 == Err::<
                OutcomeView,
                ErrorView,
            >(ErrorView::Authentication(AuthenticationError::Unauthenticated))
            &&& w.run(check.0, check.1, now, entropy, STEPS as nat).0 == w
        }),
{
    reveal_with_fuel(WorldView::run, 2);
}

/// A token that stands for a frozen account redeems nothing: confirming an
/// email, replacing a forgotten password and resetting a password are
/// refused with `AccountFrozen` before anything is written, and the token
/// stays.
pub proof fn frozen_account_redeems_no_token(
    w: WorldView,
    user: UserView,
    token: Seq<char>,
    kind: CacheId,
    password: Seq<char>,
    now: u64,
    entropy: Seq<Seq<u8>>,
)
    requires
        w.consistent(),
        lookup(w.cache, kind, token, now) == Some(CacheValueView::Text(user.id)),
        w.store.find_user(user.id) == Ok::<UserView, ErrorView>(user),
        user.frozen,
    ensures
        ({
            let refused = Err::<OutcomeView, ErrorView>(
                ErrorView::Authentication(AuthenticationError::AccountFrozen),
            );
            let confirm = begin_verify_registration_spec(token);
            let replace = begin_verify_forgot_password_spec(password, token);
            let reset = begin_reset_password_spec(token);
            &&& kind == CacheId::RegToken ==> w.run(
                confirm.0,
                confirm.1,
                now,
                entropy,
                STEPS as nat,
            ) == (w, refused)
            &&& kind == CacheId::PWToken ==> w.run(
                replace.0,
                replace.1,
                now,
                entropy,
                STEPS as nat,
            ) == (w, refused)
            &&& kind == CacheId::PWToken ==> w.run(reset.0, reset.1, now, entropy, STEPS as nat)
                == (w, refused)
        }),
{
    reveal_with_fuel(WorldView::run, 4);
}

} // verus!
