//! The cache and the repository never disagree about a session: what the
//! cache holds of a session is what the repository holds, and it lapses no
//! later than the session ends. This holds whenever an operation has ended;
//! while one is under way it holds but for the sessions that the operation
//! is about to drop from the cache.

use crate::cache::{lookup, CacheValueView};
use crate::laws::{
    dropping_removes_only_the_named, purge_ends_every_other_session, purged_are_the_purgeable,
};
use crate::model::{CacheId, Role, UserSessionView, UserView};
use crate::progress::{every_operation_ends, questions_left};
use crate::protocol::{Notice, OutcomeView, ReplyView, RequestView, StepView};
use crate::repository::{purgeable, purged};
use crate::service::account::{begin_logout_spec, begin_set_otp_secret_spec, AccountStateView};
use crate::service::guard::{begin_guard_spec, GuardStateView};
use crate::service::login::{begin_login_spec, begin_otp_spec};
use crate::service::password::{
    begin_change_password_spec, begin_forgot_password_spec, begin_reset_password_spec,
    begin_verify_forgot_password_spec,
};
use crate::service::registration::{
    begin_registration_spec, begin_resend_spec, begin_verify_registration_spec,
};
use crate::service::session::{
    begin_purge_spec, begin_session_spec, session_ids, AfterPurgeView, PurgeStateView,
    SessionStateView,
};
use crate::service::{advance_spec, StateView};
use crate::world::{drop_all, WorldView, STEPS};
use vstd::prelude::*;

verus! {

/// Whether a projection may be cached at `now`: it is of a session that the
/// repository holds, carries its CSRF token and its owner, and ends no later
/// than the session and not before `now`.
pub open spec fn stands_for_a_session(w: WorldView, cached: UserSessionView, now: u64) -> bool {
    &&& w.store.has_session(cached.id)
    &&& cached.csrf == w.store.sessions[w.store.session_pos(cached.id)].csrf_token
    &&& cached.user_id == w.store.sessions[w.store.session_pos(cached.id)].user_id
    &&& now <= cached.expires_at <= w.store.sessions[w.store.session_pos(cached.id)].expires_at
}

/// Whether the cache and the repository agree on the session that is cached
/// under an id.
pub open spec fn cached_session_agrees(w: WorldView, id: Seq<char>) -> bool {
    let slot = w.cache[(CacheId::Session, id)];
    match slot.value {
        CacheValueView::Session(cached) => {
            &&& cached.id == id
            &&& w.store.has_session(id)
            &&& cached.csrf == w.store.sessions[w.store.session_pos(id)].csrf_token
            &&& cached.user_id == w.store.sessions[w.store.session_pos(id)].user_id
            &&& match slot.expires_at {
                Some(t) => t <= w.store.sessions[w.store.session_pos(id)].expires_at,
                None => false,
            }
        },
        _ => false,
    }
}

/// Whether the cache and the repository agree on every cached session but
/// those with the given ids.
pub open spec fn sessions_agree_but(w: WorldView, ids: Seq<Seq<char>>) -> bool {
    forall|id: Seq<char>| #[trigger]
        w.cache.contains_key((CacheId::Session, id)) && !ids.contains(id)
            ==> cached_session_agrees(w, id)
}

/// Whether the cache and the repository agree on every cached session.
pub open spec fn sessions_agree(w: WorldView) -> bool {
    sessions_agree_but(w, Seq::empty())
}

/// Whether a question leaves sessions alone, in the repository and in the
/// cache.
pub open spec fn leaves_sessions_alone(request: RequestView) -> bool {
    match request {
        RequestView::CreateSession { .. } => false,
        RequestView::ExpireSession { .. } => false,
        RequestView::PurgeSessions { .. } => false,
        RequestView::SetSession { .. } => false,
        RequestView::DropSessions { .. } => false,
        RequestView::SetToken { cache_id, .. } => cache_id != CacheId::Session,
        RequestView::TakeToken { cache_id, .. } => cache_id != CacheId::Session,
        RequestView::DeleteToken { cache_id, .. } => cache_id != CacheId::Session,
        _ => true,
    }
}

/// Whether an operation that stands at `state` with `step` to come is on
/// its way: wherever it is about to change a session, the cache and the
/// repository agree but for what the step itself sets right.
pub open spec fn under_way(w: WorldView, state: StateView, step: StepView, now: u64) -> bool {
    match step {
        StepView::Done(_) => sessions_agree(w),
        StepView::Ask(request) => match state {
            StateView::Session(SessionStateView::AwaitSession { user, .. }) => {
                &&& sessions_agree(w)
                &&& request matches RequestView::CreateSession { user: asked, .. }
                &&& asked == user
            },
            StateView::Session(SessionStateView::AwaitCached { user_session, .. }) => {
                &&& sessions_agree(w)
                &&& request == RequestView::SetSession { session: user_session }
                &&& stands_for_a_session(w, user_session, now)
            },
            StateView::Purge(PurgeStateView::AwaitPurged { .. }) => {
                &&& sessions_agree(w)
                &&& request is PurgeSessions
            },
            StateView::Purge(PurgeStateView::AwaitDropped { .. }) => {
                &&& request matches RequestView::DropSessions { ids }
                &&& sessions_agree_but(w, ids)
            },
            StateView::Account(AccountStateView::LogoutExpired { session_id, .. }) => {
                &&& sessions_agree(w)
                &&& request == RequestView::ExpireSession { id: session_id }
            },
            StateView::Account(AccountStateView::LogoutDropped { .. }) => {
                &&& request matches RequestView::DeleteToken { cache_id, key }
                &&& cache_id == CacheId::Session
                &&& sessions_agree_but(w, seq![key])
            },
            StateView::Guard(GuardStateView::AwaitStored { .. }) => {
                &&& sessions_agree(w)
                &&& request is GetValidUserSession
            },
            StateView::Guard(GuardStateView::AwaitRefreshed { session, .. }) => {
                &&& sessions_agree(w)
                &&& request == RequestView::SetSession { session }
                &&& stands_for_a_session(w, session, now)
            },
            _ => sessions_agree(w) && leaves_sessions_alone(request),
        },
    }
}

proof fn neutral_question_keeps_agreement(
    w: WorldView,
    request: RequestView,
    now: u64,
    entropy: Seq<Seq<u8>>,
)
    requires
        sessions_agree(w),
        leaves_sessions_alone(request),
    ensures
        sessions_agree(w.perform(request, now, entropy).world),
{
    let after = w.perform(request, now, entropy).world;
    assert(after.store.sessions == w.store.sessions);
    assert forall|id: Seq<char>| #[trigger]
        after.cache.contains_key((CacheId::Session, id)) implies cached_session_agrees(
        after,
        id,
    ) by {
        assert(w.cache.contains_key((CacheId::Session, id)));
        assert(after.cache[(CacheId::Session, id)] == w.cache[(CacheId::Session, id)]);
        assert(cached_session_agrees(w, id));
    }
}

proof fn opening_keeps_agreement(w: WorldView, request: RequestView, now: u64, entropy: Seq<Seq<u8>>)
    requires
        w.consistent(),
        sessions_agree(w),
        request is CreateSession,
    ensures
        sessions_agree(w.perform(request, now, entropy).world),
        w.perform(request, now, entropy).reply matches ReplyView::Session(Ok(session))
            ==> stands_for_a_session(
            w.perform(request, now, entropy).world,
            crate::model::project(session, request->CreateSession_user),
            now,
        ),
{
    let after = w.perform(request, now, entropy).world;
    assert(after.cache == w.cache);
    assert forall|id: Seq<char>| #[trigger]
        after.cache.contains_key((CacheId::Session, id)) implies cached_session_agrees(
        after,
        id,
    ) by {
        assert(cached_session_agrees(w, id));
        let i = w.store.session_pos(id);
        assert(after.store.sessions[i] == w.store.sessions[i]);
        assert(after.store.has_session(id));
        let j = after.store.session_pos(id);
        if j != i {
            if j < w.store.sessions.len() {
                assert(w.store.sessions[j].id == w.store.sessions[i].id);
            } else {
                assert(after.store.sessions[j].id == id);
            }
        }
    }
    match w.perform(request, now, entropy).reply {
        ReplyView::Session(Ok(session)) => {
            let n = w.store.sessions.len() as int;
            assert(after.store.sessions[n] == session);
            assert(after.store.has_session(session.id));
            let j = after.store.session_pos(session.id);
            if j != n {
                assert(w.store.sessions[j].id == session.id);
                assert(w.store.has_session(session.id));
            }
        },
        _ => {},
    }
}

proof fn caching_keeps_agreement(w: WorldView, cached: UserSessionView, now: u64, entropy: Seq<Seq<u8>>)
    requires
        sessions_agree(w),
        stands_for_a_session(w, cached, now),
    ensures
        sessions_agree(
            w.perform(RequestView::SetSession { session: cached }, now, entropy).world,
        ),
{
    let after = w.perform(RequestView::SetSession { session: cached }, now, entropy).world;
    assert forall|id: Seq<char>| #[trigger]
        after.cache.contains_key((CacheId::Session, id)) implies cached_session_agrees(
        after,
        id,
    ) by {
        if id != cached.id {
            assert(w.cache.contains_key((CacheId::Session, id)));
            assert(after.cache[(CacheId::Session, id)] == w.cache[(CacheId::Session, id)]);
            assert(cached_session_agrees(w, id));
        }
    }
}

proof fn purging_keeps_agreement_but_for_the_purged(
    w: WorldView,
    user_id: Seq<char>,
    skip: Option<Seq<char>>,
    now: u64,
)
    requires
        w.consistent(),
        sessions_agree(w),
    ensures
        sessions_agree_but(
            w.with_store(w.store.purge_sessions(user_id, skip, now)),
            session_ids(purged(w.store.sessions, user_id, skip, now)),
        ),
{
    let after = w.with_store(w.store.purge_sessions(user_id, skip, now));
    let ids = session_ids(purged(w.store.sessions, user_id, skip, now));
    assert forall|id: Seq<char>| #[trigger]
        after.cache.contains_key((CacheId::Session, id)) && !ids.contains(
            id,
        ) implies cached_session_agrees(after, id) by {
        assert(cached_session_agrees(w, id));
        let i = w.store.session_pos(id);
        purged_are_the_purgeable(w.store.sessions, user_id, skip, now, id);
        assert(!purgeable(w.store.sessions[i], user_id, skip, now));
        assert(after.store.sessions[i] == w.store.sessions[i]);
        assert(after.store.has_session(id));
        let j = after.store.session_pos(id);
        assert(after.store.sessions[j].id == w.store.sessions[j].id);
        if j != i {
            assert(w.store.sessions[j].id == w.store.sessions[i].id);
        }
    }
}

proof fn dropping_restores_agreement(w: WorldView, ids: Seq<Seq<char>>)
    requires
        sessions_agree_but(w, ids),
    ensures
        sessions_agree(w.with_cache(drop_all(w.cache, ids))),
{
    let after = w.with_cache(drop_all(w.cache, ids));
    assert forall|id: Seq<char>| #[trigger]
        after.cache.contains_key((CacheId::Session, id)) implies cached_session_agrees(
        after,
        id,
    ) by {
        dropping_removes_only_the_named(w.cache, ids, (CacheId::Session, id));
        assert(w.cache.contains_key((CacheId::Session, id)));
        assert(cached_session_agrees(w, id));
    }
}

proof fn ending_keeps_agreement_but_for_the_ended(w: WorldView, id: Seq<char>, now: u64)
    requires
        w.consistent(),
        sessions_agree(w),
    ensures
        sessions_agree_but(w.with_store(w.store.expire_session(id, now).0), seq![id]),
{
    let after = w.with_store(w.store.expire_session(id, now).0);
    assert forall|other: Seq<char>| #[trigger]
        after.cache.contains_key((CacheId::Session, other)) && !seq![id].contains(
            other,
        ) implies cached_session_agrees(after, other) by {
        assert(seq![id][0] == id);
        assert(other != id);
        assert(cached_session_agrees(w, other));
        let i = w.store.session_pos(other);
        assert(after.store.sessions[i] == w.store.sessions[i]);
        assert(after.store.has_session(other));
        let j = after.store.session_pos(other);
        assert(after.store.sessions[j].id == w.store.sessions[j].id);
        if j != i {
            assert(w.store.sessions[j].id == w.store.sessions[i].id);
        }
    }
}

proof fn deleting_restores_agreement(w: WorldView, key: Seq<char>)
    requires
        sessions_agree_but(w, seq![key]),
    ensures
        sessions_agree(w.with_cache(crate::cache::removed(w.cache, CacheId::Session, key))),
{
    let after = w.with_cache(crate::cache::removed(w.cache, CacheId::Session, key));
    assert forall|id: Seq<char>| #[trigger]
        after.cache.contains_key((CacheId::Session, id)) implies cached_session_agrees(
        after,
        id,
    ) by {
        assert(id != key);
        assert(!seq![key].contains(id));
        assert(w.cache.contains_key((CacheId::Session, id)));
        assert(cached_session_agrees(w, id));
    }
}

proof fn found_session_may_be_cached(w: WorldView, id: Seq<char>, csrf: Seq<char>, now: u64)
    requires
        w.consistent(),
    ensures
        w.store.valid_user_session(id, csrf, now) matches Ok(cached) ==> stands_for_a_session(
            w,
            cached,
            now,
        ),
{
}

/// One answer later an operation is still on its way.
pub proof fn every_answer_keeps_the_operation_under_way(
    w: WorldView,
    state: StateView,
    request: RequestView,
    now: u64,
    entropy: Seq<Seq<u8>>,
)
    requires
        w.consistent(),
        under_way(w, state, StepView::Ask(request), now),
    ensures
        ({
            let effect = w.perform(request, now, entropy);
            let next = advance_spec(w.config, now, state, effect.reply);
            under_way(effect.world, next.0, next.1, now)
        }),
{
    let effect = w.perform(request, now, entropy);
    let next = advance_spec(w.config, now, state, effect.reply);
    match state {
        StateView::Session(SessionStateView::AwaitSession { .. }) => {
            opening_keeps_agreement(w, request, now, entropy);
        },
        StateView::Session(SessionStateView::AwaitCached { user_session, .. }) => {
            caching_keeps_agreement(w, user_session, now, entropy);
        },
        StateView::Purge(PurgeStateView::AwaitPurged { .. }) => {
            purging_keeps_agreement_but_for_the_purged(
                w,
                request->PurgeSessions_user_id,
                request->PurgeSessions_skip,
                now,
            );
        },
        StateView::Purge(PurgeStateView::AwaitDropped { .. }) => {
            dropping_restores_agreement(w, request->DropSessions_ids);
        },
        StateView::Account(AccountStateView::LogoutExpired { session_id, .. }) => {
            ending_keeps_agreement_but_for_the_ended(w, session_id, now);
        },
        StateView::Account(AccountStateView::LogoutDropped { .. }) => {
            deleting_restores_agreement(w, request->DeleteToken_key);
        },
        StateView::Guard(GuardStateView::AwaitStored { .. }) => {
            neutral_question_keeps_agreement(w, request, now, entropy);
            found_session_may_be_cached(
                w,
                request->GetValidUserSession_id,
                request->GetValidUserSession_csrf,
                now,
            );
        },
        StateView::Guard(GuardStateView::AwaitRefreshed { session, .. }) => {
            caching_keeps_agreement(w, session, now, entropy);
        },
        _ => {
            neutral_question_keeps_agreement(w, request, now, entropy);
        },
    }
}

/// An operation that is on its way leaves the cache and the repository in
/// agreement on every session when it ends.
pub proof fn every_run_ends_in_agreement(
    w: WorldView,
    state: StateView,
    step: StepView,
    now: u64,
    entropy: Seq<Seq<u8>>,
    budget: nat,
)
    requires
        w.consistent(),
        under_way(w, state, step, now),
    ensures
        w.ends(state, step, now, entropy, budget) ==> sessions_agree(
            w.run(state, step, now, entropy, budget).0,
        ),
    decreases budget,
{
    match step {
        StepView::Done(_) => {},
        StepView::Ask(request) => {
            if budget > 0 {
                every_answer_keeps_the_operation_under_way(w, state, request, now, entropy);
                crate::laws::every_answer_keeps_the_repository_consistent(
                    w,
                    request,
                    now,
                    entropy,
                );
                let effect = w.perform(request, now, entropy);
                let next = advance_spec(w.config, now, state, effect.reply);
                every_run_ends_in_agreement(
                    effect.world,
                    next.0,
                    next.1,
                    now,
                    effect.entropy,
                    (budget - 1) as nat,
                );
            }
        },
    }
}

/// Whether an operation begins as it should in a world: on its way, and
/// with no more questions to ask than a run answers.
pub open spec fn begins_well(w: WorldView, start: (StateView, StepView), now: u64) -> bool {
    &&& under_way(w, start.0, start.1, now)
    &&& questions_left(start.0) <= STEPS
    &&& start.1 is Ask ==> questions_left(start.0) > 0
}

/// In a world in which the cache and the repository agree on sessions,
/// every operation of the service begins as it should.
pub proof fn every_operation_begins_well(
    w: WorldView,
    now: u64,
    email: Seq<char>,
    username: Seq<char>,
    password: Seq<char>,
    token: Seq<char>,
    remember: bool,
    purge: bool,
    user: UserView,
    session: UserSessionView,
    skip: Option<Seq<char>>,
    cookie: Option<Seq<char>>,
    header: Option<Seq<char>>,
    required: Role,
)
    requires
        sessions_agree(w),
    ensures
        begins_well(w, begin_login_spec(email, password, remember), now),
        begins_well(w, begin_otp_spec(password, token, remember), now),
        begins_well(w, begin_registration_spec(email, username, password), now),
        begins_well(w, begin_verify_registration_spec(token), now),
        begins_well(w, begin_resend_spec(email), now),
        begins_well(w, begin_set_otp_secret_spec(user.id), now),
        begins_well(w, begin_change_password_spec(session, password), now),
        begins_well(w, begin_forgot_password_spec(email), now),
        begins_well(w, begin_verify_forgot_password_spec(password, token), now),
        begins_well(w, begin_reset_password_spec(token), now),
        begins_well(w, begin_logout_spec(session, purge), now),
        begins_well(
            w,
            begin_purge_spec(
                user.id,
                skip,
                AfterPurgeView::Finish { notice: Notice::SessionsPurged },
            ),
            now,
        ),
        begins_well(w, begin_session_spec(user, remember, false), now),
        begins_well(w, begin_guard_spec(cookie, header, required), now),
{
}

/// In a world in which the cache and the repository agree on sessions, an
/// operation that begins as it should comes to its end, and they agree
/// again when it has.
pub proof fn every_operation_ends_in_agreement(
    w: WorldView,
    start: (StateView, StepView),
    now: u64,
    entropy: Seq<Seq<u8>>,
)
    requires
        w.consistent(),
        begins_well(w, start, now),
    ensures
        w.ends(start.0, start.1, now, entropy, STEPS as nat),
        sessions_agree(w.run(start.0, start.1, now, entropy, STEPS as nat).0),
{
    every_operation_ends(w, start.0, start.1, now, entropy, STEPS as nat);
    every_run_ends_in_agreement(w, start.0, start.1, now, entropy, STEPS as nat);
}

/// Whoever the guard lets pass has a session that runs in the repository,
/// with the CSRF token of the header, and passes as the owner of that
/// session.
pub proof fn guard_passes_only_running_sessions(
    w: WorldView,
    id: Seq<char>,
    csrf: Seq<char>,
    required: Role,
    now: u64,
    entropy: Seq<Seq<u8>>,
)
    requires
        w.consistent(),
        sessions_agree(w),
    ensures
        ({
            let start = begin_guard_spec(Some(id), Some(csrf), required);
            let end = w.run(start.0, start.1, now, entropy, STEPS as nat);
            end.1 matches Ok(OutcomeView::Authorized { user_session }) ==> {
                &&& user_session.id == id
                &&& user_session.csrf == csrf
                &&& user_session.user_role.satisfies(required)
                &&& !user_session.frozen
                &&& w.store.has_session(id)
                &&& w.store.sessions[w.store.session_pos(id)].live(now)
                &&& w.store.sessions[w.store.session_pos(id)].csrf_token == csrf
                &&& w.store.sessions[w.store.session_pos(id)].user_id == user_session.user_id
            }
        }),
{
    reveal_with_fuel(WorldView::run, 5);
    if w.cache.contains_key((CacheId::Session, id)) {
        assert(cached_session_agrees(w, id));
    }
}

/// After a purge of a user's sessions that spares `skip`, none of the
/// user's other sessions can be read any more, from the repository or from
/// the cache, now or later.
pub proof fn purged_sessions_cannot_be_read(
    w: WorldView,
    user_id: Seq<char>,
    skip: Option<Seq<char>>,
    now: u64,
    entropy: Seq<Seq<u8>>,
    i: int,
    csrf: Seq<char>,
    later: u64,
)
    requires
        w.consistent(),
        sessions_agree(w),
        0 <= i < w.store.sessions.len(),
        w.store.sessions[i].user_id == user_id,
        skip != Some(w.store.sessions[i].id),
        later >= now,
    ensures
        ({
            let start = begin_purge_spec(
                user_id,
                skip,
                AfterPurgeView::Finish { notice: Notice::SessionsPurged },
            );
            let end = w.run(start.0, start.1, now, entropy, STEPS as nat).0;
            let id = w.store.sessions[i].id;
            &&& end.store.valid_user_session(id, csrf, later) is Err
            &&& lookup(end.cache, CacheId::Session, id, later) is None
        }),
{
    purge_ends_every_other_session(w, user_id, skip, now, entropy);
    let start = begin_purge_spec(
        user_id,
        skip,
        AfterPurgeView::Finish { notice: Notice::SessionsPurged },
    );
    let end = w.run(start.0, start.1, now, entropy, STEPS as nat).0;
    let id = w.store.sessions[i].id;
    crate::laws::every_run_keeps_the_repository_consistent(
        w,
        start.0,
        start.1,
        now,
        entropy,
        STEPS as nat,
    );
    assert(end.store.sessions[i].id == id);
    assert(end.store.has_session(id));
    let j = end.store.session_pos(id);
    if j != i {
        if j < i {
            assert(end.store.sessions[j].id != end.store.sessions[i].id);
        } else {
            assert(end.store.sessions[i].id != end.store.sessions[j].id);
        }
    }
    assert(w.store.has_session(id));
    let k = w.store.session_pos(id);
    if k != i {
        if k < i {
            assert(w.store.sessions[k].id != w.store.sessions[i].id);
        } else {
            assert(w.store.sessions[i].id != w.store.sessions[k].id);
        }
    }
    if end.cache.contains_key((CacheId::Session, id)) {
        assert(w.cache.contains_key((CacheId::Session, id)));
        assert(cached_session_agrees(w, id));
    }
}

} // verus!
