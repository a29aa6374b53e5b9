//! What a user does from within a session: enabling one-time passwords and
//! logging out; and the two routines that stand as operations of their own,
//! purging sessions and opening one.

use super::session::{
    begin_purge, begin_purge_spec, begin_session, begin_session_spec, AfterPurge, AfterPurgeView,
};
use super::{
    ask, ask_spec, done, done_spec, refuse, refuse_spec, stray, stray_spec, State, StateView,
};
use crate::error::AuthenticationError;
use crate::model::{text_opt, CacheId, User, UserSession, UserSessionView};
use crate::protocol::{
    Config, ConfigView, Notice, Outcome, OutcomeView, Reply, ReplyView, Request, RequestView, Step,
    StepView,
};
use vstd::prelude::*;

verus! {

/// Whether a logout ends the other sessions of the user too.
#[derive(Debug, PartialEq, Eq)]
pub struct Logout {
    pub purge: bool,
}

/// Where enabling one-time passwords or a logout stands.
#[derive(Debug, PartialEq, Eq)]
pub enum AccountState {
    SecretUser,
    SecretFresh { user_id: String },
    SecretStored { secret: String },
    SecretUri,
    LogoutExpired { session_id: String, user_id: String, purge: bool },
    LogoutDropped { user_id: String, purge: bool },
}

pub enum AccountStateView {
    SecretUser,
    SecretFresh { user_id: Seq<char> },
    SecretStored { secret: Seq<char> },
    SecretUri,
    LogoutExpired { session_id: Seq<char>, user_id: Seq<char>, purge: bool },
    LogoutDropped { user_id: Seq<char>, purge: bool },
}

impl View for AccountState {
    type V = AccountStateView;

    open spec fn view(&self) -> AccountStateView {
        match self {
            AccountState::SecretUser => AccountStateView::SecretUser,
            AccountState::SecretFresh { user_id } => AccountStateView::SecretFresh {
                user_id: user_id@,
            },
            AccountState::SecretStored { secret } => AccountStateView::SecretStored {
                secret: secret@,
            },
            AccountState::SecretUri => AccountStateView::SecretUri,
            AccountState::LogoutExpired { session_id, user_id, purge } => {
                AccountStateView::LogoutExpired {
                    session_id: session_id@,
                    user_id: user_id@,
                    purge: *purge,
                }
            },
            AccountState::LogoutDropped { user_id, purge } => AccountStateView::LogoutDropped {
                user_id: user_id@,
                purge: *purge,
            },
        }
    }
}

/// The first step of enabling one-time passwords: the user.
pub open spec fn begin_set_otp_secret_spec(user_id: Seq<char>) -> (StateView, StepView) {
    ask_spec(
        StateView::Account(AccountStateView::SecretUser),
        RequestView::GetUserById { id: user_id },
    )
}

/// Set the user's one-time-password secret and hand it out as the URI an
/// authenticator app reads. Every call makes a new secret; the one before
/// is void.
pub fn set_otp_secret(user_id: String) -> (r: (State, Step))
    ensures
        r.0@ == begin_set_otp_secret_spec(user_id@).0,
        r.1@ == begin_set_otp_secret_spec(user_id@).1,
{
    ask(State::Account(AccountState::SecretUser), Request::GetUserById { id: user_id })
}

/// The first step of a logout: the session is marked as ended.
pub open spec fn begin_logout_spec(session: UserSessionView, purge: bool) -> (StateView, StepView) {
    ask_spec(
        StateView::Account(
            AccountStateView::LogoutExpired {
                session_id: session.id,
                user_id: session.user_id,
                purge,
            },
        ),
        RequestView::ExpireSession { id: session.id },
    )
}

/// Log the user out, i.e. expire their current session and purge the rest
/// if the user selected the purge option.
pub fn logout(session: UserSession, data: Logout) -> (r: (State, Step))
    ensures
        r.0@ == begin_logout_spec(session@, data.purge).0,
        r.1@ == begin_logout_spec(session@, data.purge).1,
{
    let id = session.id.clone();
    ask(
        State::Account(
            AccountState::LogoutExpired {
                session_id: session.id,
                user_id: session.user_id,
                purge: data.purge,
            },
        ),
        Request::ExpireSession { id },
    )
}

/// Expire all sessions of the user but `skip` and remove them from the
/// cache.
pub fn purge_sessions(user_id: String, skip: Option<String>) -> (r: (State, Step))
    ensures
        r.0@ == begin_purge_spec(
            user_id@,
            text_opt(skip),
            AfterPurgeView::Finish { notice: Notice::SessionsPurged },
        ).0,
        r.1@ == begin_purge_spec(
            user_id@,
            text_opt(skip),
            AfterPurgeView::Finish { notice: Notice::SessionsPurged },
        ).1,
{
    begin_purge(user_id, skip, AfterPurge::Finish { notice: Notice::SessionsPurged })
}

/// Open a session for the user: store it, cache its projection and hand
/// out the session with its CSRF token.
pub fn session_response(user: User, remember: bool) -> (r: (State, Step))
    ensures
        r.0@ == begin_session_spec(user@, remember, false).0,
        r.1@ == begin_session_spec(user@, remember, false).1,
{
    begin_session(user, remember, false)
}

/// Enabling one-time passwords: a frozen account is refused; otherwise a
/// fresh secret is stored for the user, and the URI that carries it, the
/// user's email and the issuer is handed out.
///
/// Logging out: the session is marked as ended and its cached entry is
/// removed; if asked for, every other session of the user is purged.
pub open spec fn account_spec(config: ConfigView, state: AccountStateView, reply: ReplyView) -> (
    StateView,
    StepView,
) {
    match (state, reply) {
        (AccountStateView::SecretUser, ReplyView::User(Ok(user))) => {
            if user.frozen {
                refuse_spec(AuthenticationError::AccountFrozen)
            } else {
                ask_spec(
                    StateView::Account(AccountStateView::SecretFresh { user_id: user.id }),
                    RequestView::FreshSecret,
                )
            }
        },
        (AccountStateView::SecretFresh { user_id }, ReplyView::Text(Ok(secret))) => ask_spec(
            StateView::Account(AccountStateView::SecretStored { secret }),
            RequestView::SetUserOtpSecret { id: user_id, secret },
        ),
        (AccountStateView::SecretStored { secret }, ReplyView::User(Ok(user))) => ask_spec(
            StateView::Account(AccountStateView::SecretUri),
            RequestView::OtpUri { secret, account: user.email, issuer: config.issuer },
        ),
        (AccountStateView::SecretUri, ReplyView::Text(Ok(uri))) => done_spec(
            OutcomeView::OtpSecret { uri },
        ),
        (
            AccountStateView::LogoutExpired { session_id, user_id, purge },
            ReplyView::Session(Ok(_)),
        ) => ask_spec(
            StateView::Account(AccountStateView::LogoutDropped { user_id, purge }),
            RequestView::DeleteToken { cache_id: CacheId::Session, key: session_id },
        ),
        (AccountStateView::LogoutDropped { user_id, purge }, ReplyView::Unit(Ok(_))) => {
            if purge {
                begin_purge_spec(
                    user_id,
                    None,
                    AfterPurgeView::Finish { notice: Notice::LoggedOut },
                )
            } else {
                done_spec(OutcomeView::Message { notice: Notice::LoggedOut })
            }
        },
        (_, reply) => stray_spec(reply),
    }
}

/// Decides on one answer while enabling one-time passwords or logging out.
pub fn account_step(config: &Config, state: AccountState, reply: Reply) -> (r: (State, Step))
    ensures
        r.0@ == account_spec(config@, state@, reply@).0,
        r.1@ == account_spec(config@, state@, reply@).1,
{
    match (state, reply) {
        (AccountState::SecretUser, Reply::User(Ok(user))) => {
            if user.frozen {
                refuse(AuthenticationError::AccountFrozen)
            } else {
                ask(
                    State::Account(AccountState::SecretFresh { user_id: user.id }),
                    Request::FreshSecret,
                )
            }
        },
        (AccountState::SecretFresh { user_id }, Reply::Text(Ok(secret))) => {
            let copy = secret.clone();
            ask(
                State::Account(AccountState::SecretStored { secret }),
                Request::SetUserOtpSecret { id: user_id, secret: copy },
            )
        },
        (AccountState::SecretStored { secret }, Reply::User(Ok(user))) => ask(
            State::Account(AccountState::SecretUri),
            Request::OtpUri { secret, account: user.email, issuer: config.issuer.clone() },
        ),
        (AccountState::SecretUri, Reply::Text(Ok(uri))) => done(Outcome::OtpSecret { uri }),
        (AccountState::LogoutExpired { session_id, user_id, purge }, Reply::Session(Ok(_))) => {
            ask(
                State::Account(AccountState::LogoutDropped { user_id, purge }),
                Request::DeleteToken { cache_id: CacheId::Session, key: session_id },
            )
        },
        (AccountState::LogoutDropped { user_id, purge }, Reply::Unit(Ok(_))) => {
            if purge {
                begin_purge(user_id, None, AfterPurge::Finish { notice: Notice::LoggedOut })
            } else {
                done(Outcome::Message { notice: Notice::LoggedOut })
            }
        },
        (_, reply) => stray(reply),
    }
}

} // verus!
