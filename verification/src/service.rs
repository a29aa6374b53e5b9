//! The authentication service as decisions. An operation starts with a first
//! question; each answer is handed to `advance`, which decides on it alone
//! and yields the next question or the end. Whoever drives an operation
//! performs the questions against the repository, the cache and the notifier.

pub mod account;
pub mod guard;
pub mod login;
pub mod password;
pub mod registration;
pub mod session;

use crate::error::{AuthenticationError, Error, ErrorView};
use crate::protocol::{
    Config, ConfigView, Outcome, OutcomeView, Reply, ReplyView, Request, RequestView, Step,
    StepView,
};
use account::{AccountState, AccountStateView};
use guard::{GuardState, GuardStateView};
use login::{LoginState, LoginStateView, OtpState, OtpStateView};
use password::{PasswordState, PasswordStateView};
use registration::{RegistrationState, RegistrationStateView};
use session::{PurgeState, PurgeStateView, SessionState, SessionStateView};
use vstd::prelude::*;

verus! {

/// Where an operation stands: what was asked and what is kept for the next
/// decision.
#[derive(Debug, PartialEq, Eq)]
pub enum State {
    Finished,
    Session(SessionState),
    Purge(PurgeState),
    Login(LoginState),
    Otp(OtpState),
    Registration(RegistrationState),
    Password(PasswordState),
    Account(AccountState),
    Guard(GuardState),
}

pub enum StateView {
    Finished,
    Session(SessionStateView),
    Purge(PurgeStateView),
    Login(LoginStateView),
    Otp(OtpStateView),
    Registration(RegistrationStateView),
    Password(PasswordStateView),
    Account(AccountStateView),
    Guard(GuardStateView),
}

impl View for State {
    type V = StateView;

    open spec fn view(&self) -> StateView {
        match self {
            State::Finished => StateView::Finished,
            State::Session(s) => StateView::Session(s@),
            State::Purge(s) => StateView::Purge(s@),
            State::Login(s) => StateView::Login(s@),
            State::Otp(s) => StateView::Otp(s@),
            State::Registration(s) => StateView::Registration(s@),
            State::Password(s) => StateView::Password(s@),
            State::Account(s) => StateView::Account(s@),
            State::Guard(s) => StateView::Guard(s@),
        }
    }
}

/// The result of a question for a text, as plain values.
pub open spec fn text_result(r: Result<String, Error>) -> Result<Seq<char>, ErrorView> {
    match r {
        Ok(t) => Ok(t@),
        Err(e) => Err(e@),
    }
}

/// The decision to go on with a question.
pub open spec fn ask_spec(state: StateView, request: RequestView) -> (StateView, StepView) {
    (state, StepView::Ask(request))
}

/// The decision to end well.
pub open spec fn done_spec(outcome: OutcomeView) -> (StateView, StepView) {
    (StateView::Finished, StepView::Done(Ok(outcome)))
}

/// The decision to end with a failure.
pub open spec fn fail_spec(e: ErrorView) -> (StateView, StepView) {
    (StateView::Finished, StepView::Done(Err(e)))
}

/// The decision to end with a refusal.
pub open spec fn refuse_spec(a: AuthenticationError) -> (StateView, StepView) {
    fail_spec(ErrorView::Authentication(a))
}

/// What is done with an answer that the operation has no use for: its
/// failure, if it is one, ends the operation; any other answer was not asked
/// for and ends it without content.
pub open spec fn stray_spec(reply: ReplyView) -> (StateView, StepView) {
    match reply {
        ReplyView::User(Err(e)) => fail_spec(e),
        ReplyView::Session(Err(e)) => fail_spec(e),
        ReplyView::Sessions(Err(e)) => fail_spec(e),
        ReplyView::UserSession(Err(e)) => fail_spec(e),
        ReplyView::Value(Err(e)) => fail_spec(e),
        ReplyView::Count(Err(e)) => fail_spec(e),
        ReplyView::Unit(Err(e)) => fail_spec(e),
        ReplyView::Text(Err(e)) => fail_spec(e),
        ReplyView::Verdict(Err(e)) => fail_spec(e),
        _ => fail_spec(ErrorView::Empty),
    }
}

/// Goes on with a question.
pub fn ask(state: State, request: Request) -> (r: (State, Step))
    ensures
        r.0@ == state@,
        r.1@ == StepView::Ask(request@),
{
    (state, Step::Ask(request))
}

/// Ends well.
pub fn done(outcome: Outcome) -> (r: (State, Step))
    ensures
        r.0@ == done_spec(outcome@).0,
        r.1@ == done_spec(outcome@).1,
{
    (State::Finished, Step::Done(Ok(outcome)))
}

/// Ends with a failure.
pub fn fail(e: Error) -> (r: (State, Step))
    ensures
        r.0@ == fail_spec(e@).0,
        r.1@ == fail_spec(e@).1,
{
    (State::Finished, Step::Done(Err(e)))
}

/// Ends with a refusal.
pub fn refuse(a: AuthenticationError) -> (r: (State, Step))
    ensures
        r.0@ == refuse_spec(a).0,
        r.1@ == refuse_spec(a).1,
{
    (State::Finished, Step::Done(Err(Error::Authentication(a))))
}

/// Ends on an answer that the operation has no use for: with its failure, if
/// it is one, and without content otherwise.
pub fn stray(reply: Reply) -> (r: (State, Step))
    ensures
        r.0@ == stray_spec(reply@).0,
        r.1@ == stray_spec(reply@).1,
{
    match reply {
        Reply::User(Err(e)) => fail(e),
        Reply::Session(Err(e)) => fail(e),
        Reply::Sessions(Err(e)) => fail(e),
        Reply::UserSession(Err(e)) => fail(e),
        Reply::Value(Err(e)) => fail(e),
        Reply::Count(Err(e)) => fail(e),
        Reply::Unit(Err(e)) => fail(e),
        Reply::Text(Err(e)) => fail(e),
        Reply::Verdict(Err(e)) => fail(e),
        _ => fail(Error::Empty),
    }
}

/// The decision on one answer: the next state, and the next question or the
/// end of the operation.
pub open spec fn advance_spec(config: ConfigView, now: u64, state: StateView, reply: ReplyView) -> (
    StateView,
    StepView,
) {
    match state {
        StateView::Finished => fail_spec(ErrorView::Empty),
        StateView::Session(s) => session::session_spec(s, reply),
        StateView::Purge(s) => session::purge_spec(s, reply),
        StateView::Login(s) => login::login_spec(config, s, reply),
        StateView::Otp(s) => login::otp_spec(config, now, s, reply),
        StateView::Registration(s) => registration::registration_spec(config, now, s, reply),
        StateView::Password(s) => password::password_spec(config, now, s, reply),
        StateView::Account(s) => account::account_spec(config, s, reply),
        StateView::Guard(s) => guard::guard_spec(now, s, reply),
    }
}

/// Decides on one answer. `now` is the second at which the operation began.
pub fn advance(config: &Config, now: u64, state: State, reply: Reply) -> (r: (State, Step))
    ensures
        r.0@ == advance_spec(config@, now, state@, reply@).0,
        r.1@ == advance_spec(config@, now, state@, reply@).1,
{
    match state {
        State::Finished => fail(Error::Empty),
        State::Session(s) => session::session_step(s, reply),
        State::Purge(s) => session::purge_step(s, reply),
        State::Login(s) => login::login_step(config, s, reply),
        State::Otp(s) => login::otp_step(config, now, s, reply),
        State::Registration(s) => registration::registration_step(config, now, s, reply),
        State::Password(s) => password::password_step(config, now, s, reply),
        State::Account(s) => account::account_step(config, s, reply),
        State::Guard(s) => guard::guard_step(now, s, reply),
    }
}

} // verus!
