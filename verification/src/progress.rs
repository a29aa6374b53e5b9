//! Every operation comes to an end: each state has a number of questions
//! that are still to be asked at most, and every answer brings it down.

use crate::protocol::{ConfigView, ReplyView, StepView};
use crate::service::account::AccountStateView;
use crate::service::guard::GuardStateView;
use crate::service::login::{LoginStateView, OtpStateView};
use crate::service::password::PasswordStateView;
use crate::service::registration::RegistrationStateView;
use crate::service::session::{AfterPurgeView, PurgeStateView, SessionStateView};
use crate::service::{advance_spec, StateView};
use crate::world::WorldView;
use vstd::prelude::*;

verus! {

pub open spec fn one_if(b: bool) -> nat {
    if b {
        1
    } else {
        0
    }
}

/// The questions that what follows a purge still asks at most.
pub open spec fn questions_after_purge(then: AfterPurgeView) -> nat {
    match then {
        AfterPurgeView::Finish { .. } => 0,
        AfterPurgeView::Reissue { .. } => 4,
        AfterPurgeView::Alert { .. } => 3,
    }
}

/// The questions that an operation at this state still asks at most, the
/// one that is asked now included.
pub open spec fn questions_left(state: StateView) -> nat {
    match state {
        StateView::Finished => 0,
        StateView::Session(s) => match s {
            SessionStateView::AwaitCsrf { clear, .. } => 3 + one_if(clear),
            SessionStateView::AwaitSession { clear, .. } => 2 + one_if(clear),
            SessionStateView::AwaitCached { clear, .. } => 1 + one_if(clear),
            SessionStateView::AwaitCleared { .. } => 1,
        },
        StateView::Purge(s) => match s {
            PurgeStateView::AwaitPurged { then } => 2 + questions_after_purge(then),
            PurgeStateView::AwaitDropped { then } => 1 + questions_after_purge(then),
        },
        StateView::Login(s) => match s {
            LoginStateView::AwaitUser { .. } => 7,
            LoginStateView::AwaitAttempts { .. } => 6,
            LoginStateView::AwaitVerdict { .. } => 5,
            LoginStateView::AwaitRecorded => 1,
            LoginStateView::AwaitOtpToken { .. } => 2,
            LoginStateView::AwaitOtpStored { .. } => 1,
        },
        StateView::Otp(s) => match s {
            OtpStateView::AwaitToken { .. } => 10,
            OtpStateView::AwaitThrottle { .. } => 9,
            OtpStateView::AwaitUser { .. } => 8,
            OtpStateView::AwaitCode { earlier, .. } => 6 + one_if(earlier is Some),
            OtpStateView::AwaitTaken { .. } => 5,
        },
        StateView::Registration(s) => match s {
            RegistrationStateView::StartLookup { .. } => 6,
            RegistrationStateView::StartHash { .. } => 5,
            RegistrationStateView::StartCreated => 4,
            RegistrationStateView::VerifyToken { .. } => 4,
            RegistrationStateView::VerifyUser { .. } => 3,
            RegistrationStateView::VerifyTaken { .. } => 2,
            RegistrationStateView::VerifyMarked => 1,
            RegistrationStateView::ResendUser => 6,
            RegistrationStateView::ResendThrottle { .. } => 5,
            RegistrationStateView::MintToken { resend, .. } => 3 + one_if(resend),
            RegistrationStateView::MintStored { resend, .. } => 2 + one_if(resend),
            RegistrationStateView::MintSent { resend, .. } => 1 + one_if(resend),
            RegistrationStateView::MintMarked => 1,
        },
        StateView::Password(s) => match s {
            PasswordStateView::ChangeHash { .. } => 7,
            PasswordStateView::ChangeUpdated => 6,
            PasswordStateView::AlertToken { .. } => 3,
            PasswordStateView::AlertStored { .. } => 2,
            PasswordStateView::AlertSent => 1,
            PasswordStateView::ForgotUser => 6,
            PasswordStateView::ForgotThrottle { .. } => 5,
            PasswordStateView::ForgotToken { .. } => 4,
            PasswordStateView::ForgotStored { .. } => 3,
            PasswordStateView::ForgotSent { .. } => 2,
            PasswordStateView::ForgotMarked => 1,
            PasswordStateView::VerifyToken { .. } => 11,
            PasswordStateView::VerifyUser { .. } => 10,
            PasswordStateView::VerifyTaken { .. } => 9,
            PasswordStateView::VerifyHash { .. } => 8,
            PasswordStateView::VerifyUpdated => 7,
            PasswordStateView::ResetToken { .. } => 9,
            PasswordStateView::ResetUser { .. } => 8,
            PasswordStateView::ResetTaken { .. } => 7,
            PasswordStateView::ResetTemp { .. } => 6,
            PasswordStateView::ResetHash { .. } => 5,
            PasswordStateView::ResetUpdated { .. } => 4,
            PasswordStateView::ResetSent { .. } => 3,
        },
        StateView::Account(s) => match s {
            AccountStateView::SecretUser => 4,
            AccountStateView::SecretFresh { .. } => 3,
            AccountStateView::SecretStored { .. } => 2,
            AccountStateView::SecretUri => 1,
            AccountStateView::LogoutExpired { purge, .. } => 2 + 2 * one_if(purge),
            AccountStateView::LogoutDropped { purge, .. } => 1 + 2 * one_if(purge),
        },
        StateView::Guard(s) => match s {
            GuardStateView::AwaitCached { .. } => 3,
            GuardStateView::AwaitStored { .. } => 2,
            GuardStateView::AwaitRefreshed { .. } => 1,
        },
    }
}

/// Whether a decision ends the operation or leaves fewer questions to ask
/// than `before`.
pub open spec fn closer(next: (StateView, StepView), before: nat) -> bool {
    next.1 is Done || 0 < questions_left(next.0) < before
}

proof fn closer_in_session(state: SessionStateView, reply: ReplyView)
    ensures
        closer(
            crate::service::session::session_spec(state, reply),
            questions_left(StateView::Session(state)),
        ),
{
}

proof fn closer_in_purge(state: PurgeStateView, reply: ReplyView)
    ensures
        closer(
            crate::service::session::purge_spec(state, reply),
            questions_left(StateView::Purge(state)),
        ),
{
}

proof fn closer_in_login(config: ConfigView, state: LoginStateView, reply: ReplyView)
    ensures
        closer(
            crate::service::login::login_spec(config, state, reply),
            questions_left(StateView::Login(state)),
        ),
{
}

proof fn closer_in_otp(config: ConfigView, now: u64, state: OtpStateView, reply: ReplyView)
    ensures
        closer(
            crate::service::login::otp_spec(config, now, state, reply),
            questions_left(StateView::Otp(state)),
        ),
{
}

proof fn closer_in_registration(
    config: ConfigView,
    now: u64,
    state: RegistrationStateView,
    reply: ReplyView,
)
    ensures
        closer(
            crate::service::registration::registration_spec(config, now, state, reply),
            questions_left(StateView::Registration(state)),
        ),
{
}

proof fn closer_in_password(config: ConfigView, now: u64, state: PasswordStateView, reply: ReplyView)
    ensures
        closer(
            crate::service::password::password_spec(config, now, state, reply),
            questions_left(StateView::Password(state)),
        ),
{
}

proof fn closer_in_account(config: ConfigView, state: AccountStateView, reply: ReplyView)
    ensures
        closer(
            crate::service::account::account_spec(config, state, reply),
            questions_left(StateView::Account(state)),
        ),
{
}

proof fn closer_in_guard(now: u64, state: GuardStateView, reply: ReplyView)
    ensures
        closer(
            crate::service::guard::guard_spec(now, state, reply),
            questions_left(StateView::Guard(state)),
        ),
{
}

/// Every answer either ends the operation or leaves fewer questions to
/// ask.
pub proof fn every_answer_brings_the_end_closer(
    config: ConfigView,
    now: u64,
    state: StateView,
    reply: ReplyView,
)
    ensures
        closer(advance_spec(config, now, state, reply), questions_left(state)),
{
    match state {
        StateView::Finished => {},
        StateView::Session(s) => closer_in_session(s, reply),
        StateView::Purge(s) => closer_in_purge(s, reply),
        StateView::Login(s) => closer_in_login(config, s, reply),
        StateView::Otp(s) => closer_in_otp(config, now, s, reply),
        StateView::Registration(s) => closer_in_registration(config, now, s, reply),
        StateView::Password(s) => closer_in_password(config, now, s, reply),
        StateView::Account(s) => closer_in_account(config, s, reply),
        StateView::Guard(s) => closer_in_guard(now, s, reply),
    }
}

/// An operation comes to its end within as many questions as its state
/// has left.
#[verifier::rlimit(30)]
pub proof fn every_operation_ends(
    w: WorldView,
    state: StateView,
    step: StepView,
    now: u64,
    entropy: Seq<Seq<u8>>,
    budget: nat,
)
    requires
        budget >= questions_left(state),
        step is Ask ==> questions_left(state) > 0,
    ensures
        w.ends(state, step, now, entropy, budget),
    decreases budget,
{
    match step {
        StepView::Done(_) => {},
        StepView::Ask(request) => {
            let effect = w.perform(request, now, entropy);
            every_answer_brings_the_end_closer(w.config, now, state, effect.reply);
            let next = advance_spec(w.config, now, state, effect.reply);
            every_operation_ends(
                effect.world,
                next.0,
                next.1,
                now,
                effect.entropy,
                (budget - 1) as nat,
            );
        },
    }
}

} // verus!
