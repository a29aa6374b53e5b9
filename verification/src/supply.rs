//! The random blocks that `execute` draws are enough: an operation that is
//! run with them never fails for want of a block.

use crate::error::ErrorView;
use crate::protocol::{ConfigView, OutcomeView, ReplyView, RequestView, StepView};
use crate::service::account::AccountStateView;
use crate::service::guard::GuardStateView;
use crate::service::login::{LoginStateView, OtpStateView};
use crate::service::password::PasswordStateView;
use crate::service::registration::RegistrationStateView;
use crate::service::session::{PurgeStateView, SessionStateView};
use crate::service::{advance_spec, StateView};
use crate::world::{crypto_failure, drawn, WorldView, BLOCK, STEPS};
use vstd::prelude::*;

verus! {

/// The failure that an answer carries, if it carries one.
pub open spec fn failure_of(reply: ReplyView) -> Option<ErrorView> {
    match reply {
        ReplyView::User(Err(e)) => Some(e),
        ReplyView::Session(Err(e)) => Some(e),
        ReplyView::Sessions(Err(e)) => Some(e),
        ReplyView::UserSession(Err(e)) => Some(e),
        ReplyView::Value(Err(e)) => Some(e),
        ReplyView::Count(Err(e)) => Some(e),
        ReplyView::Unit(Err(e)) => Some(e),
        ReplyView::Text(Err(e)) => Some(e),
        ReplyView::Verdict(Err(e)) => Some(e),
        _ => None,
    }
}

/// The failure of a question that needed a random block and found none, or
/// one too short.
pub open spec fn out_of_blocks() -> ErrorView {
    crypto_failure("entropy"@)
}

/// Whether an operation's result is the want of a random block.
pub open spec fn short_of_blocks(r: Result<OutcomeView, ErrorView>) -> bool {
    r == Err::<OutcomeView, ErrorView>(out_of_blocks())
}

/// Whether an operation has ended for want of a random block.
pub open spec fn ended_out_of_blocks(step: StepView) -> bool {
    step matches StepView::Done(r) && short_of_blocks(r)
}

/// Whether a decision ends for want of a block only where the answer said
/// so.
pub open spec fn invents_no_shortage(next: (StateView, StepView), reply: ReplyView) -> bool {
    ended_out_of_blocks(next.1) ==> failure_of(reply) == Some(out_of_blocks())
}

/// Whether there are at least `budget` random blocks, each of `BLOCK` bytes.
pub open spec fn supplied(entropy: Seq<Seq<u8>>, budget: nat) -> bool {
    &&& entropy.len() >= budget
    &&& forall|j: int| 0 <= j < entropy.len() ==> (#[trigger] entropy[j]).len() == BLOCK
}

proof fn no_shortage_in_session(state: SessionStateView, reply: ReplyView)
    ensures
        invents_no_shortage(crate::service::session::session_spec(state, reply), reply),
{
}

proof fn no_shortage_in_purge(state: PurgeStateView, reply: ReplyView)
    ensures
        invents_no_shortage(crate::service::session::purge_spec(state, reply), reply),
{
}

proof fn no_shortage_in_login(config: ConfigView, state: LoginStateView, reply: ReplyView)
    ensures
        invents_no_shortage(crate::service::login::login_spec(config, state, reply), reply),
{
}

proof fn no_shortage_in_otp(config: ConfigView, now: u64, state: OtpStateView, reply: ReplyView)
    ensures
        invents_no_shortage(crate::service::login::otp_spec(config, now, state, reply), reply),
{
}

proof fn no_shortage_in_registration(
    config: ConfigView,
    now: u64,
    state: RegistrationStateView,
    reply: ReplyView,
)
    ensures
        invents_no_shortage(
            crate::service::registration::registration_spec(config, now, state, reply),
            reply,
        ),
{
}

proof fn no_shortage_in_password(
    config: ConfigView,
    now: u64,
    state: PasswordStateView,
    reply: ReplyView,
)
    ensures
        invents_no_shortage(
            crate::service::password::password_spec(config, now, state, reply),
            reply,
        ),
{
}

proof fn no_shortage_in_account(config: ConfigView, state: AccountStateView, reply: ReplyView)
    ensures
        invents_no_shortage(crate::service::account::account_spec(config, state, reply), reply),
{
}

proof fn no_shortage_in_guard(now: u64, state: GuardStateView, reply: ReplyView)
    ensures
        invents_no_shortage(crate::service::guard::guard_spec(now, state, reply), reply),
{
}

/// No decision ends an operation for want of a random block unless the
/// answer it was given said so.
pub proof fn no_decision_invents_a_shortage(
    config: ConfigView,
    now: u64,
    state: StateView,
    reply: ReplyView,
)
    ensures
        invents_no_shortage(advance_spec(config, now, state, reply), reply),
{
    match state {
        StateView::Finished => {},
        StateView::Session(s) => no_shortage_in_session(s, reply),
        StateView::Purge(s) => no_shortage_in_purge(s, reply),
        StateView::Login(s) => no_shortage_in_login(config, s, reply),
        StateView::Otp(s) => no_shortage_in_otp(config, now, s, reply),
        StateView::Registration(s) => no_shortage_in_registration(config, now, s, reply),
        StateView::Password(s) => no_shortage_in_password(config, now, s, reply),
        StateView::Account(s) => no_shortage_in_account(config, s, reply),
        StateView::Guard(s) => no_shortage_in_guard(now, s, reply),
    }
}

/// A question that finds a block of `BLOCK` bytes is not answered with the
/// want of one, and uses up one block at most.
pub proof fn a_block_answers_a_question(
    w: WorldView,
    request: RequestView,
    now: u64,
    entropy: Seq<Seq<u8>>,
    budget: nat,
)
    requires
        budget > 0,
        supplied(entropy, budget),
    ensures
        failure_of(w.perform(request, now, entropy).reply) != Some(out_of_blocks()),
        supplied(w.perform(request, now, entropy).entropy, (budget - 1) as nat),
{
    reveal_strlit("entropy");
    reveal_strlit("hash");
    reveal_strlit("otp");
    let rest = w.perform(request, now, entropy).entropy;
    assert(rest == entropy || rest == entropy.skip(1));
    assert(entropy[0].len() == BLOCK);
    assert("hash"@.len() == 4 && "otp"@.len() == 3 && "entropy"@.len() == 7);
}

/// An operation that has a random block of `BLOCK` bytes for each question
/// of its budget does not end for want of a block.
pub proof fn enough_blocks_are_never_short(
    w: WorldView,
    state: StateView,
    step: StepView,
    now: u64,
    entropy: Seq<Seq<u8>>,
    budget: nat,
)
    requires
        supplied(entropy, budget),
        !ended_out_of_blocks(step),
    ensures
        !short_of_blocks(w.run(state, step, now, entropy, budget).1),
    decreases budget,
{
    match step {
        StepView::Done(_) => {},
        StepView::Ask(request) => {
            if budget > 0 {
                let effect = w.perform(request, now, entropy);
                a_block_answers_a_question(w, request, now, entropy, budget);
                no_decision_invents_a_shortage(w.config, now, state, effect.reply);
                let next = advance_spec(w.config, now, state, effect.reply);
                enough_blocks_are_never_short(
                    effect.world,
                    next.0,
                    next.1,
                    now,
                    effect.entropy,
                    (budget - 1) as nat,
                );
            }
        },
    }
}

/// A run with random blocks as `execute` draws them does not end for want
/// of a block.
pub proof fn drawn_blocks_are_enough(
    w: WorldView,
    state: StateView,
    step: StepView,
    now: u64,
    entropy: Seq<Seq<u8>>,
)
    requires
        drawn(entropy),
        !ended_out_of_blocks(step),
    ensures
        !short_of_blocks(w.run(state, step, now, entropy, STEPS as nat).1),
{
    enough_blocks_are_never_short(w, state, step, now, entropy, STEPS as nat);
}

} // verus!
