//! Opening a session and purging sessions: the two routines that every
//! operation which ends or begins a login runs through.

use super::password::{begin_alert, begin_alert_spec};
use super::{ask, ask_spec, done, done_spec, stray, stray_spec, State, StateView};
use crate::model::{
    project, text_opt, Session, SessionView, User, UserSession, UserSessionView, UserView,
};
use crate::protocol::{
    texts_of, Notice, Outcome, OutcomeView, Reply, ReplyView, Request, RequestView, Step, StepView,
};
use crate::repository::sessions_of;
use vstd::prelude::*;

verus! {

/// Opening a session. `clear` says whether the owner's failed logins are
/// forgotten once the session stands.
#[derive(Debug, PartialEq, Eq)]
pub enum SessionState {
    AwaitCsrf { user: User, remember: bool, clear: bool },
    AwaitSession { user: User, clear: bool },
    AwaitCached { session: Session, user_session: UserSession, clear: bool },
    AwaitCleared { session: Session, user_session: UserSession },
}

pub enum SessionStateView {
    AwaitCsrf { user: UserView, remember: bool, clear: bool },
    AwaitSession { user: UserView, clear: bool },
    AwaitCached { session: SessionView, user_session: UserSessionView, clear: bool },
    AwaitCleared { session: SessionView, user_session: UserSessionView },
}

impl View for SessionState {
    type V = SessionStateView;

    open spec fn view(&self) -> SessionStateView {
        match self {
            SessionState::AwaitCsrf { user, remember, clear } => SessionStateView::AwaitCsrf {
                user: user@,
                remember: *remember,
                clear: *clear,
            },
            SessionState::AwaitSession { user, clear } => SessionStateView::AwaitSession {
                user: user@,
                clear: *clear,
            },
            SessionState::AwaitCached { session, user_session, clear } => {
                SessionStateView::AwaitCached {
                    session: session@,
                    user_session: user_session@,
                    clear: *clear,
                }
            },
            SessionState::AwaitCleared { session, user_session } => SessionStateView::AwaitCleared {
                session: session@,
                user_session: user_session@,
            },
        }
    }
}

/// The first step of opening a session for `user`: a fresh CSRF token.
pub open spec fn begin_session_spec(user: UserView, remember: bool, clear: bool) -> (
    StateView,
    StepView,
) {
    ask_spec(
        StateView::Session(SessionStateView::AwaitCsrf { user, remember, clear }),
        RequestView::FreshToken,
    )
}

/// Begins opening a session for a user.
pub fn begin_session(user: User, remember: bool, clear: bool) -> (r: (State, Step))
    ensures
        r.0@ == begin_session_spec(user@, remember, clear).0,
        r.1@ == begin_session_spec(user@, remember, clear).1,
{
    ask(State::Session(SessionState::AwaitCsrf { user, remember, clear }), Request::FreshToken)
}

/// Opening a session: with the fresh CSRF token the session is stored, its
/// projection is cached, and then, if asked for, the failed logins of its
/// owner are forgotten. A session is permanent exactly when `remember` is set.
pub open spec fn session_spec(state: SessionStateView, reply: ReplyView) -> (StateView, StepView) {
    match (state, reply) {
        (SessionStateView::AwaitCsrf { user, remember, clear }, ReplyView::Text(Ok(csrf))) => {
            ask_spec(
                StateView::Session(SessionStateView::AwaitSession { user, clear }),
                RequestView::CreateSession { user, csrf_token: csrf, permanent: remember },
            )
        },
        (SessionStateView::AwaitSession { user, clear }, ReplyView::Session(Ok(session))) => {
            ask_spec(
                StateView::Session(
                    SessionStateView::AwaitCached {
                        session,
                        user_session: project(session, user),
                        clear,
                    },
                ),
                RequestView::SetSession { session: project(session, user) },
            )
        },
        (
            SessionStateView::AwaitCached { session, user_session, clear },
            ReplyView::Unit(Ok(_)),
        ) => {
            if clear {
                ask_spec(
                    StateView::Session(SessionStateView::AwaitCleared { session, user_session }),
                    RequestView::DeleteLoginAttempts { user_id: user_session.user_id },
                )
            } else {
                done_spec(OutcomeView::SessionEstablished { session, user_session })
            }
        },
        (SessionStateView::AwaitCleared { session, user_session }, ReplyView::Unit(Ok(_))) => {
            done_spec(OutcomeView::SessionEstablished { session, user_session })
        },
        (_, reply) => stray_spec(reply),
    }
}

/// Decides on one answer while a session is opened.
pub fn session_step(state: SessionState, reply: Reply) -> (r: (State, Step))
    ensures
        r.0@ == session_spec(state@, reply@).0,
        r.1@ == session_spec(state@, reply@).1,
{
    match (state, reply) {
        (SessionState::AwaitCsrf { user, remember, clear }, Reply::Text(Ok(csrf))) => {
            let copy = user.clone();
            ask(
                State::Session(SessionState::AwaitSession { user, clear }),
                Request::CreateSession { user: copy, csrf_token: csrf, permanent: remember },
            )
        },
        (SessionState::AwaitSession { user, clear }, Reply::Session(Ok(session))) => {
            let user_session = UserSession::new(&session, &user);
            let copy = user_session.clone();
            ask(
                State::Session(SessionState::AwaitCached { session, user_session, clear }),
                Request::SetSession { session: copy },
            )
        },
        (SessionState::AwaitCached { session, user_session, clear }, Reply::Unit(Ok(_))) => {
            if clear {
                let user_id = user_session.user_id.clone();
                ask(
                    State::Session(SessionState::AwaitCleared { session, user_session }),
                    Request::DeleteLoginAttempts { user_id },
                )
            } else {
                done(Outcome::SessionEstablished { session, user_session })
            }
        },
        (SessionState::AwaitCleared { session, user_session }, Reply::Unit(Ok(_))) => {
            done(Outcome::SessionEstablished { session, user_session })
        },
        (_, reply) => stray(reply),
    }
}

/// What follows a purge.
#[derive(Debug, PartialEq, Eq)]
pub enum AfterPurge {
    /// The operation ends with this notice.
    Finish { notice: Notice },
    /// A new session is opened for the user.
    Reissue { user: User },
    /// The user is told by email that the password was changed.
    Alert { user: User },
}

pub enum AfterPurgeView {
    Finish { notice: Notice },
    Reissue { user: UserView },
    Alert { user: UserView },
}

impl View for AfterPurge {
    type V = AfterPurgeView;

    open spec fn view(&self) -> AfterPurgeView {
        match self {
            AfterPurge::Finish { notice } => AfterPurgeView::Finish { notice: *notice },
            AfterPurge::Reissue { user } => AfterPurgeView::Reissue { user: user@ },
            AfterPurge::Alert { user } => AfterPurgeView::Alert { user: user@ },
        }
    }
}

/// Purging sessions.
#[derive(Debug, PartialEq, Eq)]
pub enum PurgeState {
    AwaitPurged { then: AfterPurge },
    AwaitDropped { then: AfterPurge },
}

pub enum PurgeStateView {
    AwaitPurged { then: AfterPurgeView },
    AwaitDropped { then: AfterPurgeView },
}

impl View for PurgeState {
    type V = PurgeStateView;

    open spec fn view(&self) -> PurgeStateView {
        match self {
            PurgeState::AwaitPurged { then } => PurgeStateView::AwaitPurged { then: then@ },
            PurgeState::AwaitDropped { then } => PurgeStateView::AwaitDropped { then: then@ },
        }
    }
}

/// The ids of sessions.
pub open spec fn session_ids(sessions: Seq<SessionView>) -> Seq<Seq<char>> {
    sessions.map_values(|s: SessionView| s.id)
}

fn ids_of(sessions: &Vec<Session>) -> (r: Vec<String>)
    ensures
        texts_of(r@) == session_ids(sessions_of(sessions@)),
{
    let mut ids: Vec<String> = Vec::new();
    let mut i: usize = 0;
    while i < sessions.len()
        invariant
            i <= sessions.len(),
            ids@.len() == i,
            forall|j: int| 0 <= j < i ==> ids@[j]@ == sessions@[j].id@,
        decreases sessions.len() - i,
    {
        ids.push(sessions[i].id.clone());
        i = i + 1;
    }
    proof {
        assert(texts_of(ids@) =~= session_ids(sessions_of(sessions@)));
    }
    ids
}

/// The first step of a purge: the repository ends every running session of
/// the user but `skip`.
pub open spec fn begin_purge_spec(user_id: Seq<char>, skip: Option<Seq<char>>, then: AfterPurgeView) -> (
    StateView,
    StepView,
) {
    ask_spec(
        StateView::Purge(PurgeStateView::AwaitPurged { then }),
        RequestView::PurgeSessions { user_id, skip },
    )
}

/// Begins a purge of a user's sessions.
pub fn begin_purge(user_id: String, skip: Option<String>, then: AfterPurge) -> (r: (State, Step))
    ensures
        r.0@ == begin_purge_spec(user_id@, text_opt(skip), then@).0,
        r.1@ == begin_purge_spec(user_id@, text_opt(skip), then@).1,
{
    ask(State::Purge(PurgeState::AwaitPurged { then }), Request::PurgeSessions { user_id, skip })
}

/// What follows a purge.
pub open spec fn after_purge_spec(then: AfterPurgeView) -> (StateView, StepView) {
    match then {
        AfterPurgeView::Finish { notice } => done_spec(OutcomeView::Message { notice }),
        AfterPurgeView::Reissue { user } => begin_session_spec(user, false, true),
        AfterPurgeView::Alert { user } => begin_alert_spec(user),
    }
}

fn after_purge(then: AfterPurge) -> (r: (State, Step))
    ensures
        r.0@ == after_purge_spec(then@).0,
        r.1@ == after_purge_spec(then@).1,
{
    match then {
        AfterPurge::Finish { notice } => done(Outcome::Message { notice }),
        AfterPurge::Reissue { user } => begin_session(user, false, true),
        AfterPurge::Alert { user } => begin_alert(user),
    }
}

/// Purging sessions: the cached entry of every session that the repository
/// ended is dropped. If the cache fails to drop, the purge stands and the
/// operation goes on; the entries lapse by themselves.
pub open spec fn purge_spec(state: PurgeStateView, reply: ReplyView) -> (StateView, StepView) {
    match (state, reply) {
        (PurgeStateView::AwaitPurged { then }, ReplyView::Sessions(Ok(ended))) => ask_spec(
            StateView::Purge(PurgeStateView::AwaitDropped { then }),
            RequestView::DropSessions { ids: session_ids(ended) },
        ),
        (PurgeStateView::AwaitDropped { then }, ReplyView::Unit(_)) => after_purge_spec(then),
        (_, reply) => stray_spec(reply),
    }
}

/// Decides on one answer of a purge.
pub fn purge_step(state: PurgeState, reply: Reply) -> (r: (State, Step))
    ensures
        r.0@ == purge_spec(state@, reply@).0,
        r.1@ == purge_spec(state@, reply@).1,
{
    match (state, reply) {
        (PurgeState::AwaitPurged { then }, Reply::Sessions(Ok(ended))) => {
            let ids = ids_of(&ended);
            ask(State::Purge(PurgeState::AwaitDropped { then }), Request::DropSessions { ids })
        },
        (PurgeState::AwaitDropped { then }, Reply::Unit(_)) => after_purge(then),
        (_, reply) => stray(reply),
    }
}

} // verus!
