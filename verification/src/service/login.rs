//! Logging in: by password, and by one-time password where the user has a
//! secret.

use super::session::{begin_session, begin_session_spec};
use super::{
    ask, ask_spec, done, done_spec, fail, fail_spec, refuse, refuse_spec, stray, stray_spec, State,
    StateView,
};
use crate::cache::{CacheValue, CacheValueView};
use crate::error::AuthenticationError;
use crate::model::{same_text, CacheId, User, UserView};
use crate::protocol::{
    Config, ConfigView, Outcome, OutcomeView, Reply, ReplyView, Request, RequestView, Step,
    StepView,
};
use vstd::prelude::*;

verus! {

/// What a user logs in with.
#[derive(Debug, PartialEq, Eq)]
pub struct Credentials {
    pub email: String,
    pub password: String,
    pub remember: bool,
}

/// What a user answers the one-time-password challenge with.
#[derive(Debug, PartialEq, Eq)]
pub struct Otp {
    pub password: String,
    pub token: String,
    pub remember: bool,
}

/// Seconds in one time step of a one-time password.
pub const TIME_STEP: u64 = 30;

/// Where a login stands.
#[derive(Debug, PartialEq, Eq)]
pub enum LoginState {
    AwaitUser { password: String, remember: bool },
    AwaitAttempts { user: User, password: String, remember: bool },
    AwaitVerdict { user: User, remember: bool },
    AwaitRecorded,
    AwaitOtpToken { user: User, remember: bool },
    AwaitOtpStored { username: String, token: String, remember: bool },
}

pub enum LoginStateView {
    AwaitUser { password: Seq<char>, remember: bool },
    AwaitAttempts { user: UserView, password: Seq<char>, remember: bool },
    AwaitVerdict { user: UserView, remember: bool },
    AwaitRecorded,
    AwaitOtpToken { user: UserView, remember: bool },
    AwaitOtpStored { username: Seq<char>, token: Seq<char>, remember: bool },
}

impl View for LoginState {
    type V = LoginStateView;

    open spec fn view(&self) -> LoginStateView {
        match self {
            LoginState::AwaitUser { password, remember } => LoginStateView::AwaitUser {
                password: password@,
                remember: *remember,
            },
            LoginState::AwaitAttempts { user, password, remember } => {
                LoginStateView::AwaitAttempts {
                    user: user@,
                    password: password@,
                    remember: *remember,
                }
            },
            LoginState::AwaitVerdict { user, remember } => LoginStateView::AwaitVerdict {
                user: user@,
                remember: *remember,
            },
            LoginState::AwaitRecorded => LoginStateView::AwaitRecorded,
            LoginState::AwaitOtpToken { user, remember } => LoginStateView::AwaitOtpToken {
                user: user@,
                remember: *remember,
            },
            LoginState::AwaitOtpStored { username, token, remember } => {
                LoginStateView::AwaitOtpStored {
                    username: username@,
                    token: token@,
                    remember: *remember,
                }
            },
        }
    }
}

/// The first step of a login: the user with the given email.
pub open spec fn begin_login_spec(email: Seq<char>, password: Seq<char>, remember: bool) -> (
    StateView,
    StepView,
) {
    ask_spec(
        StateView::Login(LoginStateView::AwaitUser { password, remember }),
        RequestView::GetUserByEmail { email },
    )
}

/// Verify the user's email and password and establish a session if they
/// don't have a one-time-password secret. If `remember` is set the session
/// will be permanent.
pub fn login(credentials: Credentials) -> (r: (State, Step))
    ensures
        r.0@ == begin_login_spec(
            credentials.email@,
            credentials.password@,
            credentials.remember,
        ).0,
        r.1@ == begin_login_spec(
            credentials.email@,
            credentials.password@,
            credentials.remember,
        ).1,
{
    let Credentials { email, password, remember } = credentials;
    ask(
        State::Login(LoginState::AwaitUser { password, remember }),
        Request::GetUserByEmail { email },
    )
}

/// The number that a cached counter stands at; anything else counts as zero.
pub open spec fn count_in(value: Option<CacheValueView>) -> u64 {
    match value {
        Some(CacheValueView::Number(n)) => n,
        _ => 0,
    }
}

/// A login. An unknown email and a wrong password end alike, with
/// `InvalidCredentials`. A frozen account is refused as soon as it is known.
/// Once the failed logins on record have reached the limit, the login is
/// refused with `AuthBlocked` before the password is looked at. A wrong
/// password is put on record. A right password opens a session if the user
/// has no one-time-password secret; if the user has one, a fresh token is
/// cached for the user's id and handed out in place of a session.
pub open spec fn login_spec(config: ConfigView, state: LoginStateView, reply: ReplyView) -> (
    StateView,
    StepView,
) {
    match (state, reply) {
        (LoginStateView::AwaitUser { password, remember }, ReplyView::User(Err(e))) => {
            if e.is_absent() {
                refuse_spec(AuthenticationError::InvalidCredentials)
            } else {
                fail_spec(e)
            }
        },
        (LoginStateView::AwaitUser { password, remember }, ReplyView::User(Ok(user))) => {
            if user.frozen {
                refuse_spec(AuthenticationError::AccountFrozen)
            } else {
                ask_spec(
                    StateView::Login(LoginStateView::AwaitAttempts { user, password, remember }),
                    RequestView::GetToken { cache_id: CacheId::LoginAttempts, key: user.id },
                )
            }
        },
        (LoginStateView::AwaitAttempts { user, password, remember }, ReplyView::Value(Ok(v))) => {
            if count_in(v) >= config.login_attempt_limit {
                refuse_spec(AuthenticationError::AuthBlocked)
            } else {
                ask_spec(
                    StateView::Login(LoginStateView::AwaitVerdict { user, remember }),
                    RequestView::VerifyPassword { password, hash: user.password },
                )
            }
        },
        (LoginStateView::AwaitVerdict { user, remember }, ReplyView::Verdict(Ok(right))) => {
            if !right {
                ask_spec(
                    StateView::Login(LoginStateView::AwaitRecorded),
                    RequestView::CacheLoginAttempt { user_id: user.id },
                )
            } else if user.otp_secret is None {
                begin_session_spec(user, remember, true)
            } else {
                ask_spec(
                    StateView::Login(LoginStateView::AwaitOtpToken { user, remember }),
                    RequestView::FreshToken,
                )
            }
        },
        (LoginStateView::AwaitRecorded, ReplyView::Count(Ok(_))) => refuse_spec(
            AuthenticationError::InvalidCredentials,
        ),
        (LoginStateView::AwaitOtpToken { user, remember }, ReplyView::Text(Ok(token))) => {
            ask_spec(
                StateView::Login(
                    LoginStateView::AwaitOtpStored { username: user.username, token, remember },
                ),
                RequestView::SetToken {
                    cache_id: CacheId::OTPToken,
                    key: token,
                    value: CacheValueView::Text(user.id),
                    ttl: Some(config.ttl_of(CacheId::OTPToken)),
                },
            )
        },
        (
            LoginStateView::AwaitOtpStored { username, token, remember },
            ReplyView::Unit(Ok(_)),
        ) => done_spec(OutcomeView::OtpRequired { username, token, remember }),
        (_, reply) => stray_spec(reply),
    }
}

fn counted(value: &Option<CacheValue>) -> (r: u64)
    ensures
        r == count_in(crate::cache::value_opt(*value)),
{
    match value {
        Some(CacheValue::Number(n)) => *n,
        _ => 0,
    }
}

/// Decides on one answer of a login.
pub fn login_step(config: &Config, state: LoginState, reply: Reply) -> (r: (State, Step))
    ensures
        r.0@ == login_spec(config@, state@, reply@).0,
        r.1@ == login_spec(config@, state@, reply@).1,
{
    match (state, reply) {
        (LoginState::AwaitUser { password, remember }, Reply::User(Err(e))) => {
            if e.is_absent() {
                refuse(AuthenticationError::InvalidCredentials)
            } else {
                fail(e)
            }
        },
        (LoginState::AwaitUser { password, remember }, Reply::User(Ok(user))) => {
            if user.frozen {
                refuse(AuthenticationError::AccountFrozen)
            } else {
                let key = user.id.clone();
                ask(
                    State::Login(LoginState::AwaitAttempts { user, password, remember }),
                    Request::GetToken { cache_id: CacheId::LoginAttempts, key },
                )
            }
        },
        (LoginState::AwaitAttempts { user, password, remember }, Reply::Value(Ok(v))) => {
            if counted(&v) >= config.login_attempt_limit {
                refuse(AuthenticationError::AuthBlocked)
            } else {
                let hash = user.password.clone();
                ask(
                    State::Login(LoginState::AwaitVerdict { user, remember }),
                    Request::VerifyPassword { password, hash },
                )
            }
        },
        (LoginState::AwaitVerdict { user, remember }, Reply::Verdict(Ok(right))) => {
            if !right {
                ask(
                    State::Login(LoginState::AwaitRecorded),
                    Request::CacheLoginAttempt { user_id: user.id },
                )
            } else if user.otp_secret.is_none() {
                begin_session(user, remember, true)
            } else {
                ask(State::Login(LoginState::AwaitOtpToken { user, remember }), Request::FreshToken)
            }
        },
        (LoginState::AwaitRecorded, Reply::Count(Ok(_))) => refuse(
            AuthenticationError::InvalidCredentials,
        ),
        (LoginState::AwaitOtpToken { user, remember }, Reply::Text(Ok(token))) => {
            let key = token.clone();
            ask(
                State::Login(
                    LoginState::AwaitOtpStored { username: user.username, token, remember },
                ),
                Request::SetToken {
                    cache_id: CacheId::OTPToken,
                    key,
                    value: CacheValue::Text(user.id),
                    ttl: Some(config.ttl_of(CacheId::OTPToken)),
                },
            )
        },
        (LoginState::AwaitOtpStored { username, token, remember }, Reply::Unit(Ok(_))) => done(
            Outcome::OtpRequired { username, token, remember },
        ),
        (_, reply) => stray(reply),
    }
}

/// Where redeeming a one-time password stands.
#[derive(Debug, PartialEq, Eq)]
pub enum OtpState {
    AwaitToken { password: String, token: String, remember: bool },
    AwaitThrottle { user_id: String, password: String, token: String, remember: bool },
    AwaitUser { password: String, token: String, remember: bool },
    AwaitCode { user: User, password: String, token: String, remember: bool, earlier: Option<u64> },
    AwaitTaken { user: User, remember: bool },
}

pub enum OtpStateView {
    AwaitToken { password: Seq<char>, token: Seq<char>, remember: bool },
    AwaitThrottle { user_id: Seq<char>, password: Seq<char>, token: Seq<char>, remember: bool },
    AwaitUser { password: Seq<char>, token: Seq<char>, remember: bool },
    AwaitCode {
        user: UserView,
        password: Seq<char>,
        token: Seq<char>,
        remember: bool,
        earlier: Option<u64>,
    },
    AwaitTaken { user: UserView, remember: bool },
}

impl View for OtpState {
    type V = OtpStateView;

    open spec fn view(&self) -> OtpStateView {
        match self {
            OtpState::AwaitToken { password, token, remember } => OtpStateView::AwaitToken {
                password: password@,
                token: token@,
                remember: *remember,
            },
            OtpState::AwaitThrottle { user_id, password, token, remember } => {
                OtpStateView::AwaitThrottle {
                    user_id: user_id@,
                    password: password@,
                    token: token@,
                    remember: *remember,
                }
            },
            OtpState::AwaitUser { password, token, remember } => OtpStateView::AwaitUser {
                password: password@,
                token: token@,
                remember: *remember,
            },
            OtpState::AwaitCode { user, password, token, remember, earlier } => {
                OtpStateView::AwaitCode {
                    user: user@,
                    password: password@,
                    token: token@,
                    remember: *remember,
                    earlier: *earlier,
                }
            },
            OtpState::AwaitTaken { user, remember } => OtpStateView::AwaitTaken {
                user: user@,
                remember: *remember,
            },
        }
    }
}

/// The first step of redeeming a one-time password: whom the token stands
/// for.
pub open spec fn begin_otp_spec(password: Seq<char>, token: Seq<char>, remember: bool) -> (
    StateView,
    StepView,
) {
    ask_spec(
        StateView::Otp(OtpStateView::AwaitToken { password, token, remember }),
        RequestView::GetToken { cache_id: CacheId::OTPToken, key: token },
    )
}

/// Verify the user's one-time password and if successful establish a
/// session.
pub fn verify_otp(credentials: Otp) -> (r: (State, Step))
    ensures
        r.0@ == begin_otp_spec(credentials.password@, credentials.token@, credentials.remember).0,
        r.1@ == begin_otp_spec(credentials.password@, credentials.token@, credentials.remember).1,
{
    let Otp { password, token, remember } = credentials;
    let key = token.clone();
    ask(
        State::Otp(OtpState::AwaitToken { password, token, remember }),
        Request::GetToken { cache_id: CacheId::OTPToken, key },
    )
}

/// The time step before `step` that is tried when the code of `step` is not
/// the one given: none, unless skew is allowed and there is an earlier step.
pub open spec fn earlier_step(config: ConfigView, step: u64) -> Option<u64> {
    if config.otp_skew && step > 0 {
        Some((step - 1) as u64)
    } else {
        None
    }
}

/// Redeeming a one-time password. A token that the cache does not hold ends
/// the operation with `InvalidToken(OTPToken)` before anything is counted.
/// Every attempt of a known token is counted for the user it stands for, and
/// refused with `AuthBlocked` once the count exceeds the limit. The code is
/// the one-time password of the user's secret at the time step of `now`, or,
/// where skew is allowed, at the step before. A wrong code ends the operation
/// with `InvalidOTP` and leaves the token. With the right code the token is
/// taken from the cache: whoever takes it is given a session, and whoever
/// finds it taken is refused with `InvalidToken(OTPToken)`.
pub open spec fn otp_spec(config: ConfigView, now: u64, state: OtpStateView, reply: ReplyView) -> (
    StateView,
    StepView,
) {
    match (state, reply) {
        (
            OtpStateView::AwaitToken { password, token, remember },
            ReplyView::Value(Ok(Some(CacheValueView::Text(user_id)))),
        ) => ask_spec(
            StateView::Otp(OtpStateView::AwaitThrottle { user_id, password, token, remember }),
            RequestView::CacheOtpThrottle { user_id },
        ),
        (OtpStateView::AwaitToken { password, token, remember }, ReplyView::Value(Ok(_))) => {
            refuse_spec(AuthenticationError::InvalidToken(CacheId::OTPToken))
        },
        (
            OtpStateView::AwaitThrottle { user_id, password, token, remember },
            ReplyView::Count(Ok(n)),
        ) => {
            if n > config.otp_attempt_limit {
                refuse_spec(AuthenticationError::AuthBlocked)
            } else {
                ask_spec(
                    StateView::Otp(OtpStateView::AwaitUser { password, token, remember }),
                    RequestView::GetUserById { id: user_id },
                )
            }
        },
        (OtpStateView::AwaitUser { password, token, remember }, ReplyView::User(Ok(user))) => {
            if user.frozen {
                refuse_spec(AuthenticationError::AccountFrozen)
            } else {
                match user.otp_secret {
                    Some(secret) => ask_spec(
                        StateView::Otp(
                            OtpStateView::AwaitCode {
                                user,
                                password,
                                token,
                                remember,
                                earlier: earlier_step(config, now / TIME_STEP),
                            },
                        ),
                        RequestView::OneTimePassword { secret, step: now / TIME_STEP },
                    ),
                    None => refuse_spec(AuthenticationError::InvalidOTP),
                }
            }
        },
        (
            OtpStateView::AwaitCode { user, password, token, remember, earlier },
            ReplyView::Text(Ok(code)),
        ) => {
            if code == password {
                ask_spec(
                    StateView::Otp(OtpStateView::AwaitTaken { user, remember }),
                    RequestView::TakeToken { cache_id: CacheId::OTPToken, key: token },
                )
            } else {
                match (earlier, user.otp_secret) {
                    (Some(step), Some(secret)) => ask_spec(
                        StateView::Otp(
                            OtpStateView::AwaitCode {
                                user,
                                password,
                                token,
                                remember,
                                earlier: None,
                            },
                        ),
                        RequestView::OneTimePassword { secret, step },
                    ),
                    _ => refuse_spec(AuthenticationError::InvalidOTP),
                }
            }
        },
        (OtpStateView::AwaitTaken { user, remember }, ReplyView::Value(Ok(Some(_)))) => {
            begin_session_spec(user, remember, true)
        },
        (OtpStateView::AwaitTaken { user, remember }, ReplyView::Value(Ok(None))) => refuse_spec(
            AuthenticationError::InvalidToken(CacheId::OTPToken),
        ),
        (_, reply) => stray_spec(reply),
    }
}

/// Decides on one answer while a one-time password is redeemed.
pub fn otp_step(config: &Config, now: u64, state: OtpState, reply: Reply) -> (r: (State, Step))
    ensures
        r.0@ == otp_spec(config@, now, state@, reply@).0,
        r.1@ == otp_spec(config@, now, state@, reply@).1,
{
    match (state, reply) {
        (
            OtpState::AwaitToken { password, token, remember },
            Reply::Value(Ok(Some(CacheValue::Text(user_id)))),
        ) => {
            let copy = user_id.clone();
            ask(
                State::Otp(OtpState::AwaitThrottle { user_id, password, token, remember }),
                Request::CacheOtpThrottle { user_id: copy },
            )
        },
        (OtpState::AwaitToken { password, token, remember }, Reply::Value(Ok(_))) => refuse(
            AuthenticationError::InvalidToken(CacheId::OTPToken),
        ),
        (OtpState::AwaitThrottle { user_id, password, token, remember }, Reply::Count(Ok(n))) => {
            if n > config.otp_attempt_limit {
                refuse(AuthenticationError::AuthBlocked)
            } else {
                ask(
                    State::Otp(OtpState::AwaitUser { password, token, remember }),
                    Request::GetUserById { id: user_id },
                )
            }
        },
        (OtpState::AwaitUser { password, token, remember }, Reply::User(Ok(user))) => {
            if user.frozen {
                refuse(AuthenticationError::AccountFrozen)
            } else {
                let step = now / TIME_STEP;
                let earlier = if config.otp_skew && step > 0 {
                    Some(step - 1)
                } else {
                    None
                };
                match &user.otp_secret {
                    Some(secret) => {
                        let secret = secret.clone();
                        ask(
                            State::Otp(
                                OtpState::AwaitCode { user, password, token, remember, earlier },
                            ),
                            Request::OneTimePassword { secret, step },
                        )
                    },
                    None => refuse(AuthenticationError::InvalidOTP),
                }
            }
        },
        (OtpState::AwaitCode { user, password, token, remember, earlier }, Reply::Text(Ok(code))) => {
            if same_text(&code, &password) {
                ask(
                    State::Otp(OtpState::AwaitTaken { user, remember }),
                    Request::TakeToken { cache_id: CacheId::OTPToken, key: token },
                )
            } else {
                match (earlier, &user.otp_secret) {
                    (Some(step), Some(secret)) => {
                        let secret = secret.clone();
                        ask(
                            State::Otp(
                                OtpState::AwaitCode {
                                    user,
                                    password,
                                    token,
                                    remember,
                                    earlier: None,
                                },
                            ),
                            Request::OneTimePassword { secret, step },
                        )
                    },
                    _ => refuse(AuthenticationError::InvalidOTP),
                }
            }
        },
        (OtpState::AwaitTaken { user, remember }, Reply::Value(Ok(Some(_)))) => begin_session(
            user,
            remember,
            true,
        ),
        (OtpState::AwaitTaken { user, remember }, Reply::Value(Ok(None))) => refuse(
            AuthenticationError::InvalidToken(CacheId::OTPToken),
        ),
        (_, reply) => stray(reply),
    }
}

} // verus!
