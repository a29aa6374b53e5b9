//! Registering: creating the account, confirming its email with a token
//! that can be redeemed once, and sending a token again.

use super::{
    ask, ask_spec, done, done_spec, fail, fail_spec, refuse, refuse_spec, stray, stray_spec, State,
    StateView,
};
use crate::cache::{CacheValue, CacheValueView};
use crate::error::AuthenticationError;
use crate::model::{CacheId, User, UserView};
use crate::protocol::{
    Config, ConfigView, MailKind, Notice, Outcome, OutcomeView, Reply, ReplyView, Request,
    RequestView, Step, StepView,
};
use vstd::prelude::*;

verus! {

/// What a user registers with.
#[derive(Debug, PartialEq, Eq)]
pub struct RegistrationData {
    pub email: String,
    pub password: String,
    pub username: String,
}

/// A token that came by email.
#[derive(Debug, PartialEq, Eq)]
pub struct EmailToken {
    pub token: String,
}

/// Whom a registration token is to be sent to again.
#[derive(Debug, PartialEq, Eq)]
pub struct ResendRegToken {
    pub email: String,
}

/// Where a registration, a confirmation or a repeated sending stands.
#[derive(Debug, PartialEq, Eq)]
pub enum RegistrationState {
    StartLookup { email: String, username: String, password: String },
    StartHash { email: String, username: String },
    StartCreated,
    VerifyToken { token: String },
    VerifyUser { token: String },
    VerifyTaken { user_id: String },
    VerifyMarked,
    ResendUser,
    ResendThrottle { user: User },
    /// From here on a first token and a repeated one go the same way.
    MintToken { user: User, resend: bool },
    MintStored { user: User, token: String, resend: bool },
    MintSent { user_id: String, resend: bool },
    MintMarked,
}

pub enum RegistrationStateView {
    StartLookup { email: Seq<char>, username: Seq<char>, password: Seq<char> },
    StartHash { email: Seq<char>, username: Seq<char> },
    StartCreated,
    VerifyToken { token: Seq<char> },
    VerifyUser { token: Seq<char> },
    VerifyTaken { user_id: Seq<char> },
    VerifyMarked,
    ResendUser,
    ResendThrottle { user: UserView },
    MintToken { user: UserView, resend: bool },
    MintStored { user: UserView, token: Seq<char>, resend: bool },
    MintSent { user_id: Seq<char>, resend: bool },
    MintMarked,
}

impl View for RegistrationState {
    type V = RegistrationStateView;

    open spec fn view(&self) -> RegistrationStateView {
        match self {
            RegistrationState::StartLookup { email, username, password } => {
                RegistrationStateView::StartLookup {
                    email: email@,
                    username: username@,
                    password: password@,
                }
            },
            RegistrationState::StartHash { email, username } => RegistrationStateView::StartHash {
                email: email@,
                username: username@,
            },
            RegistrationState::StartCreated => RegistrationStateView::StartCreated,
            RegistrationState::VerifyToken { token } => RegistrationStateView::VerifyToken {
                token: token@,
            },
            RegistrationState::VerifyUser { token } => RegistrationStateView::VerifyUser {
                token: token@,
            },
            RegistrationState::VerifyTaken { user_id } => RegistrationStateView::VerifyTaken {
                user_id: user_id@,
            },
            RegistrationState::VerifyMarked => RegistrationStateView::VerifyMarked,
            RegistrationState::ResendUser => RegistrationStateView::ResendUser,
            RegistrationState::ResendThrottle { user } => RegistrationStateView::ResendThrottle {
                user: user@,
            },
            RegistrationState::MintToken { user, resend } => RegistrationStateView::MintToken {
                user: user@,
                resend: *resend,
            },
            RegistrationState::MintStored { user, token, resend } => {
                RegistrationStateView::MintStored { user: user@, token: token@, resend: *resend }
            },
            RegistrationState::MintSent { user_id, resend } => RegistrationStateView::MintSent {
                user_id: user_id@,
                resend: *resend,
            },
            RegistrationState::MintMarked => RegistrationStateView::MintMarked,
        }
    }
}

/// The first step of a registration: whether the email is in use.
pub open spec fn begin_registration_spec(email: Seq<char>, username: Seq<char>, password: Seq<char>) -> (
    StateView,
    StepView,
) {
    ask_spec(
        StateView::Registration(RegistrationStateView::StartLookup { email, username, password }),
        RequestView::GetUserByEmail { email },
    )
}

/// Start the registration process and send a registration token via email.
pub fn start_registration(data: RegistrationData) -> (r: (State, Step))
    ensures
        r.0@ == begin_registration_spec(data.email@, data.username@, data.password@).0,
        r.1@ == begin_registration_spec(data.email@, data.username@, data.password@).1,
{
    let RegistrationData { email, password, username } = data;
    let copy = email.clone();
    ask(
        State::Registration(RegistrationState::StartLookup { email, username, password }),
        Request::GetUserByEmail { email: copy },
    )
}

/// The first step of a confirmation: whom the token stands for.
pub open spec fn begin_verify_registration_spec(token: Seq<char>) -> (StateView, StepView) {
    ask_spec(
        StateView::Registration(RegistrationStateView::VerifyToken { token }),
        RequestView::GetToken { cache_id: CacheId::RegToken, key: token },
    )
}

/// Verify the registration token.
pub fn verify_registration_token(data: EmailToken) -> (r: (State, Step))
    ensures
        r.0@ == begin_verify_registration_spec(data.token@).0,
        r.1@ == begin_verify_registration_spec(data.token@).1,
{
    let key = data.token.clone();
    ask(
        State::Registration(RegistrationState::VerifyToken { token: data.token }),
        Request::GetToken { cache_id: CacheId::RegToken, key },
    )
}

/// The first step of sending a token again: the user with the given email.
pub open spec fn begin_resend_spec(email: Seq<char>) -> (StateView, StepView) {
    ask_spec(
        StateView::Registration(RegistrationStateView::ResendUser),
        RequestView::GetUserByEmail { email },
    )
}

/// Resend a registration token in case the user's initial one expired.
pub fn resend_registration_token(data: ResendRegToken) -> (r: (State, Step))
    ensures
        r.0@ == begin_resend_spec(data.email@).0,
        r.1@ == begin_resend_spec(data.email@).1,
{
    let ResendRegToken { email } = data;
    ask(State::Registration(RegistrationState::ResendUser), Request::GetUserByEmail { email })
}

/// What the caller is told when a registration token was sent.
pub open spec fn mint_notice(resend: bool) -> Notice {
    if resend {
        Notice::RegistrationTokenSent
    } else {
        Notice::RegistrationStarted
    }
}

/// Registration.
///
/// Starting: an email that is in use ends the operation with `EmailTaken`.
/// Otherwise the password is hashed, the user is created, and a fresh token
/// is cached for the user's id and sent by email. A failure to send ends the
/// operation with that failure.
///
/// Confirming: a token that the cache does not hold ends the operation with
/// `InvalidToken(RegToken)`. The user it stands for is looked up, and a
/// frozen account is refused before anything is written and with the token
/// left. Then the token is taken from the cache: whoever takes it has the
/// email marked as verified, and whoever finds it taken is refused with
/// `InvalidToken(RegToken)`.
///
/// Sending again: a verified user is refused with `AlreadyVerified`. A user
/// who was sent an email within the throttle is told the same as one who is
/// sent a token now, and nothing is sent. Otherwise a fresh token is cached
/// and sent, and the time of sending is noted for the throttle.
pub open spec fn registration_spec(
    config: ConfigView,
    now: u64,
    state: RegistrationStateView,
    reply: ReplyView,
) -> (StateView, StepView) {
    match (state, reply) {
        (RegistrationStateView::StartLookup { email, username, password }, ReplyView::User(Ok(_))) => {
            refuse_spec(AuthenticationError::EmailTaken)
        },
        (
            RegistrationStateView::StartLookup { email, username, password },
            ReplyView::User(Err(e)),
        ) => {
            if e.is_absent() {
                ask_spec(
                    StateView::Registration(RegistrationStateView::StartHash { email, username }),
                    RequestView::HashPassword { password },
                )
            } else {
                fail_spec(e)
            }
        },
        (RegistrationStateView::StartHash { email, username }, ReplyView::Text(Ok(hash))) => {
            ask_spec(
                StateView::Registration(RegistrationStateView::StartCreated),
                RequestView::CreateUser { email, username, password: hash },
            )
        },
        (RegistrationStateView::StartCreated, ReplyView::User(Ok(user))) => ask_spec(
            StateView::Registration(RegistrationStateView::MintToken { user, resend: false }),
            RequestView::FreshToken,
        ),
        (
            RegistrationStateView::VerifyToken { token },
            ReplyView::Value(Ok(Some(CacheValueView::Text(user_id)))),
        ) => ask_spec(
            StateView::Registration(RegistrationStateView::VerifyUser { token }),
            RequestView::GetUserById { id: user_id },
        ),
        (RegistrationStateView::VerifyToken { token }, ReplyView::Value(Ok(_))) => refuse_spec(
            AuthenticationError::InvalidToken(CacheId::RegToken),
        ),
        (RegistrationStateView::VerifyUser { token }, ReplyView::User(Ok(user))) => {
            if user.frozen {
                refuse_spec(AuthenticationError::AccountFrozen)
            } else {
                ask_spec(
                    StateView::Registration(
                        RegistrationStateView::VerifyTaken { user_id: user.id },
                    ),
                    RequestView::TakeToken { cache_id: CacheId::RegToken, key: token },
                )
            }
        },
        (RegistrationStateView::VerifyTaken { user_id }, ReplyView::Value(Ok(Some(_)))) => {
            ask_spec(
                StateView::Registration(RegistrationStateView::VerifyMarked),
                RequestView::UpdateEmailVerifiedAt { id: user_id },
            )
        },
        (RegistrationStateView::VerifyTaken { user_id }, ReplyView::Value(Ok(None))) => {
            refuse_spec(AuthenticationError::InvalidToken(CacheId::RegToken))
        },
        (RegistrationStateView::VerifyMarked, ReplyView::User(Ok(_))) => done_spec(
            OutcomeView::Message { notice: Notice::EmailVerified },
        ),
        (RegistrationStateView::ResendUser, ReplyView::User(Ok(user))) => {
            if user.frozen {
                refuse_spec(AuthenticationError::AccountFrozen)
            } else if user.email_verified_at is Some {
                refuse_spec(AuthenticationError::AlreadyVerified)
            } else {
                ask_spec(
                    StateView::Registration(RegistrationStateView::ResendThrottle { user }),
                    RequestView::GetToken { cache_id: CacheId::EmailThrottle, key: user.id },
                )
            }
        },
        (RegistrationStateView::ResendThrottle { user }, ReplyView::Value(Ok(Some(_)))) => {
            done_spec(OutcomeView::Message { notice: Notice::RegistrationTokenSent })
        },
        (RegistrationStateView::ResendThrottle { user }, ReplyView::Value(Ok(None))) => ask_spec(
            StateView::Registration(RegistrationStateView::MintToken { user, resend: true }),
            RequestView::FreshToken,
        ),
        (RegistrationStateView::MintToken { user, resend }, ReplyView::Text(Ok(token))) => {
            ask_spec(
                StateView::Registration(RegistrationStateView::MintStored { user, token, resend }),
                RequestView::SetToken {
                    cache_id: CacheId::RegToken,
                    key: token,
                    value: CacheValueView::Text(user.id),
                    ttl: Some(config.ttl_of(CacheId::RegToken)),
                },
            )
        },
        (RegistrationStateView::MintStored { user, token, resend }, ReplyView::Unit(Ok(_))) => {
            ask_spec(
                StateView::Registration(
                    RegistrationStateView::MintSent { user_id: user.id, resend },
                ),
                RequestView::SendMail {
                    kind: MailKind::RegistrationToken,
                    username: user.username,
                    email: user.email,
                    text: token,
                },
            )
        },
        (RegistrationStateView::MintSent { user_id, resend }, ReplyView::Unit(Ok(_))) => {
            if resend {
                ask_spec(
                    StateView::Registration(RegistrationStateView::MintMarked),
                    RequestView::SetToken {
                        cache_id: CacheId::EmailThrottle,
                        key: user_id,
                        value: CacheValueView::Number(now),
                        ttl: Some(config.ttl_of(CacheId::EmailThrottle)),
                    },
                )
            } else {
                done_spec(OutcomeView::Message { notice: Notice::RegistrationStarted })
            }
        },
        (RegistrationStateView::MintMarked, ReplyView::Unit(Ok(_))) => done_spec(
            OutcomeView::Message { notice: Notice::RegistrationTokenSent },
        ),
        (_, reply) => stray_spec(reply),
    }
}

/// Decides on one answer of a registration.
pub fn registration_step(config: &Config, now: u64, state: RegistrationState, reply: Reply) -> (r: (
    State,
    Step,
))
    ensures
        r.0@ == registration_spec(config@, now, state@, reply@).0,
        r.1@ == registration_spec(config@, now, state@, reply@).1,
{
    match (state, reply) {
        (RegistrationState::StartLookup { email, username, password }, Reply::User(Ok(_))) => {
            refuse(AuthenticationError::EmailTaken)
        },
        (RegistrationState::StartLookup { email, username, password }, Reply::User(Err(e))) => {
            if e.is_absent() {
                ask(
                    State::Registration(RegistrationState::StartHash { email, username }),
                    Request::HashPassword { password },
                )
            } else {
                fail(e)
            }
        },
        (RegistrationState::StartHash { email, username }, Reply::Text(Ok(hash))) => ask(
            State::Registration(RegistrationState::StartCreated),
            Request::CreateUser { email, username, password: hash },
        ),
        (RegistrationState::StartCreated, Reply::User(Ok(user))) => ask(
            State::Registration(RegistrationState::MintToken { user, resend: false }),
            Request::FreshToken,
        ),
        (
            RegistrationState::VerifyToken { token },
            Reply::Value(Ok(Some(CacheValue::Text(user_id)))),
        ) => ask(
            State::Registration(RegistrationState::VerifyUser { token }),
            Request::GetUserById { id: user_id },
        ),
        (RegistrationState::VerifyToken { token }, Reply::Value(Ok(_))) => refuse(
            AuthenticationError::InvalidToken(CacheId::RegToken),
        ),
        (RegistrationState::VerifyUser { token }, Reply::User(Ok(user))) => {
            if user.frozen {
                refuse(AuthenticationError::AccountFrozen)
            } else {
                ask(
                    State::Registration(RegistrationState::VerifyTaken { user_id: user.id }),
                    Request::TakeToken { cache_id: CacheId::RegToken, key: token },
                )
            }
        },
        (RegistrationState::VerifyTaken { user_id }, Reply::Value(Ok(Some(_)))) => ask(
            State::Registration(RegistrationState::VerifyMarked),
            Request::UpdateEmailVerifiedAt { id: user_id },
        ),
        (RegistrationState::VerifyTaken { user_id }, Reply::Value(Ok(None))) => refuse(
            AuthenticationError::InvalidToken(CacheId::RegToken),
        ),
        (RegistrationState::VerifyMarked, Reply::User(Ok(_))) => done(
            Outcome::Message { notice: Notice::EmailVerified },
        ),
        (RegistrationState::ResendUser, Reply::User(Ok(user))) => {
            if user.frozen {
                refuse(AuthenticationError::AccountFrozen)
            } else if user.email_verified_at.is_some() {
                refuse(AuthenticationError::AlreadyVerified)
            } else {
                let key = user.id.clone();
                ask(
                    State::Registration(RegistrationState::ResendThrottle { user }),
                    Request::GetToken { cache_id: CacheId::EmailThrottle, key },
                )
            }
        },
        (RegistrationState::ResendThrottle { user }, Reply::Value(Ok(Some(_)))) => done(
            Outcome::Message { notice: Notice::RegistrationTokenSent },
        ),
        (RegistrationState::ResendThrottle { user }, Reply::Value(Ok(None))) => ask(
            State::Registration(RegistrationState::MintToken { user, resend: true }),
            Request::FreshToken,
        ),
        (RegistrationState::MintToken { user, resend }, Reply::Text(Ok(token))) => {
            let key = token.clone();
            let value = CacheValue::Text(user.id.clone());
            ask(
                State::Registration(RegistrationState::MintStored { user, token, resend }),
                Request::SetToken {
                    cache_id: CacheId::RegToken,
                    key,
                    value,
                    ttl: Some(config.ttl_of(CacheId::RegToken)),
                },
            )
        },
        (RegistrationState::MintStored { user, token, resend }, Reply::Unit(Ok(_))) => ask(
            State::Registration(RegistrationState::MintSent { user_id: user.id, resend }),
            Request::SendMail {
                kind: MailKind::RegistrationToken,
                username: user.username,
                email: user.email,
                text: token,
            },
        ),
        (RegistrationState::MintSent { user_id, resend }, Reply::Unit(Ok(_))) => {
            if resend {
                ask(
                    State::Registration(RegistrationState::MintMarked),
                    Request::SetToken {
                        cache_id: CacheId::EmailThrottle,
                        key: user_id,
                        value: CacheValue::Number(now),
                        ttl: Some(config.ttl_of(CacheId::EmailThrottle)),
                    },
                )
            } else {
                done(Outcome::Message { notice: Notice::RegistrationStarted })
            }
        },
        (RegistrationState::MintMarked, Reply::Unit(Ok(_))) => done(
            Outcome::Message { notice: Notice::RegistrationTokenSent },
        ),
        (_, reply) => stray(reply),
    }
}

} // verus!
