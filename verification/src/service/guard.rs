//! The guard: whether a request that comes with a session cookie and a CSRF
//! header may pass. The guard changes nothing but the cache, which it fills
//! when it had to ask the repository.

use super::{
    ask, ask_spec, done, done_spec, fail, fail_spec, refuse, refuse_spec, stray, stray_spec, State,
    StateView,
};
use crate::cache::{CacheValue, CacheValueView};
use crate::error::AuthenticationError;
use crate::model::{same_text, text_opt, Role, UserSession, UserSessionView};
use crate::protocol::{
    Outcome, OutcomeView, Reply, ReplyView, Request, RequestView, Step, StepView,
};
use vstd::prelude::*;

verus! {

/// Where the guard stands.
#[derive(Debug, PartialEq, Eq)]
pub enum GuardState {
    AwaitCached { id: String, csrf: String, required: Role },
    AwaitStored { csrf: String, required: Role },
    AwaitRefreshed { session: UserSession, csrf: String, required: Role },
}

pub enum GuardStateView {
    AwaitCached { id: Seq<char>, csrf: Seq<char>, required: Role },
    AwaitStored { csrf: Seq<char>, required: Role },
    AwaitRefreshed { session: UserSessionView, csrf: Seq<char>, required: Role },
}

impl View for GuardState {
    type V = GuardStateView;

    open spec fn view(&self) -> GuardStateView {
        match self {
            GuardState::AwaitCached { id, csrf, required } => GuardStateView::AwaitCached {
                id: id@,
                csrf: csrf@,
                required: *required,
            },
            GuardState::AwaitStored { csrf, required } => GuardStateView::AwaitStored {
                csrf: csrf@,
                required: *required,
            },
            GuardState::AwaitRefreshed { session, csrf, required } => {
                GuardStateView::AwaitRefreshed {
                    session: session@,
                    csrf: csrf@,
                    required: *required,
                }
            },
        }
    }
}

/// The first step of the guard. Without a cookie nobody is logged in;
/// without the header the CSRF token cannot match.
pub open spec fn begin_guard_spec(cookie: Option<Seq<char>>, header: Option<Seq<char>>, required: Role) -> (
    StateView,
    StepView,
) {
    match (cookie, header) {
        (None, _) => refuse_spec(AuthenticationError::Unauthenticated),
        (Some(_), None) => refuse_spec(AuthenticationError::InvalidCsrfHeader),
        (Some(id), Some(csrf)) => ask_spec(
            StateView::Guard(GuardStateView::AwaitCached { id, csrf, required }),
            RequestView::GetSessionById { id },
        ),
    }
}

/// Find the session that a request belongs to, by the session id in its
/// cookie and the CSRF token in its header, and check it against the role
/// that the route asks for.
pub fn get_valid_session(cookie: Option<String>, header: Option<String>, required: Role) -> (r: (
    State,
    Step,
))
    ensures
        r.0@ == begin_guard_spec(text_opt(cookie), text_opt(header), required).0,
        r.1@ == begin_guard_spec(text_opt(cookie), text_opt(header), required).1,
{
    match (cookie, header) {
        (None, _) => refuse(AuthenticationError::Unauthenticated),
        (Some(_), None) => refuse(AuthenticationError::InvalidCsrfHeader),
        (Some(id), Some(csrf)) => {
            let copy = id.clone();
            ask(
                State::Guard(GuardState::AwaitCached { id, csrf, required }),
                Request::GetSessionById { id: copy },
            )
        },
    }
}

/// What the guard makes of a session it found: the CSRF token must be the
/// session's, the session must not have ended, the account must not be
/// frozen, and the user's role must be at least the required one.
pub open spec fn verdict_spec(session: UserSessionView, csrf: Seq<char>, required: Role, now: u64) -> (
    StateView,
    StepView,
) {
    if session.csrf != csrf {
        refuse_spec(AuthenticationError::InvalidCsrfHeader)
    } else if !(now < session.expires_at) {
        refuse_spec(AuthenticationError::Unauthenticated)
    } else if session.frozen {
        refuse_spec(AuthenticationError::AccountFrozen)
    } else if !session.user_role.satisfies(required) {
        refuse_spec(AuthenticationError::InsufficientRights)
    } else {
        done_spec(OutcomeView::Authorized { user_session: session })
    }
}

/// Whether a user with `role` may use a route that asks for `required`.
pub fn check_valid_role(role: Role, required: Role) -> (r: bool)
    ensures
        r == role.satisfies(required),
{
    role.rank() >= required.rank()
}

fn verdict(session: UserSession, csrf: &String, required: Role, now: u64) -> (r: (State, Step))
    ensures
        r.0@ == verdict_spec(session@, csrf@, required, now).0,
        r.1@ == verdict_spec(session@, csrf@, required, now).1,
{
    if !same_text(&session.csrf, csrf) {
        refuse(AuthenticationError::InvalidCsrfHeader)
    } else if !(now < session.expires_at) {
        refuse(AuthenticationError::Unauthenticated)
    } else if session.frozen {
        refuse(AuthenticationError::AccountFrozen)
    } else if !check_valid_role(session.user_role, required) {
        refuse(AuthenticationError::InsufficientRights)
    } else {
        done(Outcome::Authorized { user_session: session })
    }
}

/// The guard. A session that the cache holds is judged as it is. One that
/// the cache does not hold is looked up in the repository, by id and CSRF
/// token; if it is not there or has ended, nobody is logged in; if it is
/// there, it is cached and then judged.
pub open spec fn guard_spec(now: u64, state: GuardStateView, reply: ReplyView) -> (
    StateView,
    StepView,
) {
    match (state, reply) {
        (
            GuardStateView::AwaitCached { id, csrf, required },
            ReplyView::Value(Ok(Some(CacheValueView::Session(session)))),
        ) => verdict_spec(session, csrf, required, now),
        (GuardStateView::AwaitCached { id, csrf, required }, ReplyView::Value(Ok(_))) => ask_spec(
            StateView::Guard(GuardStateView::AwaitStored { csrf, required }),
            RequestView::GetValidUserSession { id, csrf },
        ),
        (GuardStateView::AwaitStored { csrf, required }, ReplyView::UserSession(Ok(session))) => {
            ask_spec(
                StateView::Guard(GuardStateView::AwaitRefreshed { session, csrf, required }),
                RequestView::SetSession { session },
            )
        },
        (GuardStateView::AwaitStored { csrf, required }, ReplyView::UserSession(Err(e))) => {
            if e.is_absent() {
                refuse_spec(AuthenticationError::Unauthenticated)
            } else {
                fail_spec(e)
            }
        },
        (GuardStateView::AwaitRefreshed { session, csrf, required }, ReplyView::Unit(Ok(_))) => {
            verdict_spec(session, csrf, required, now)
        },
        (_, reply) => stray_spec(reply),
    }
}

/// Decides on one answer for the guard.
pub fn guard_step(now: u64, state: GuardState, reply: Reply) -> (r: (State, Step))
    ensures
        r.0@ == guard_spec(now, state@, reply@).0,
        r.1@ == guard_spec(now, state@, reply@).1,
{
    match (state, reply) {
        (
            GuardState::AwaitCached { id, csrf, required },
            Reply::Value(Ok(Some(CacheValue::Session(session)))),
        ) => verdict(session, &csrf, required, now),
        (GuardState::AwaitCached { id, csrf, required }, Reply::Value(Ok(_))) => {
            let copy = csrf.clone();
            ask(
                State::Guard(GuardState::AwaitStored { csrf, required }),
                Request::GetValidUserSession { id, csrf: copy },
            )
        },
        (GuardState::AwaitStored { csrf, required }, Reply::UserSession(Ok(session))) => {
            let copy = session.clone();
            ask(
                State::Guard(GuardState::AwaitRefreshed { session, csrf, required }),
                Request::SetSession { session: copy },
            )
        },
        (GuardState::AwaitStored { csrf, required }, Reply::UserSession(Err(e))) => {
            if e.is_absent() {
                refuse(AuthenticationError::Unauthenticated)
            } else {
                fail(e)
            }
        },
        (GuardState::AwaitRefreshed { session, csrf, required }, Reply::Unit(Ok(_))) => verdict(
            session,
            &csrf,
            required,
            now,
        ),
        (_, reply) => stray(reply),
    }
}

} // verus!
