//! Passwords: changing one from within a session, and recovering an account
//! whose password is lost, by a token that can be redeemed once.

use super::session::{
    begin_purge, begin_purge_spec, AfterPurge, AfterPurgeView,
};
use super::{
    ask, ask_spec, done, done_spec, refuse, refuse_spec, stray, stray_spec, State, StateView,
};
use crate::cache::{CacheValue, CacheValueView};
use crate::error::AuthenticationError;
use crate::model::{CacheId, User, UserSession, UserSessionView, UserView};
use crate::protocol::{
    Config, ConfigView, MailKind, Notice, Outcome, OutcomeView, Reply, ReplyView, Request,
    RequestView, Step, StepView,
};
use vstd::prelude::*;

verus! {

/// The new password of a user who is logged in.
#[derive(Debug, PartialEq, Eq)]
pub struct ChangePassword {
    pub password: String,
}

/// Whose password is lost.
#[derive(Debug, PartialEq, Eq)]
pub struct ForgotPassword {
    pub email: String,
}

/// The token that came by email and the password to set.
#[derive(Debug, PartialEq, Eq)]
pub struct ForgotPasswordVerify {
    pub password: String,
    pub token: String,
}

/// The token that allows to have a temporary password sent.
#[derive(Debug, PartialEq, Eq)]
pub struct ResetPassword {
    pub token: String,
}

/// Where an operation on a password stands.
#[derive(Debug, PartialEq, Eq)]
pub enum PasswordState {
    ChangeHash { user_id: String },
    ChangeUpdated,
    AlertToken { user: User },
    AlertStored { user: User, token: String },
    AlertSent,
    ForgotUser,
    ForgotThrottle { user: User },
    ForgotToken { user: User },
    ForgotStored { user: User, token: String },
    ForgotSent { user_id: String },
    ForgotMarked,
    VerifyToken { password: String, token: String },
    VerifyUser { password: String, token: String },
    VerifyTaken { user_id: String, password: String },
    VerifyHash { user_id: String },
    VerifyUpdated,
    ResetToken { token: String },
    ResetUser { token: String },
    ResetTaken { user_id: String },
    ResetTemp { user_id: String },
    ResetHash { user_id: String, temp: String },
    ResetUpdated { temp: String },
    ResetSent { user_id: String },
}

pub enum PasswordStateView {
    ChangeHash { user_id: Seq<char> },
    ChangeUpdated,
    AlertToken { user: UserView },
    AlertStored { user: UserView, token: Seq<char> },
    AlertSent,
    ForgotUser,
    ForgotThrottle { user: UserView },
    ForgotToken { user: UserView },
    ForgotStored { user: UserView, token: Seq<char> },
    ForgotSent { user_id: Seq<char> },
    ForgotMarked,
    VerifyToken { password: Seq<char>, token: Seq<char> },
    VerifyUser { password: Seq<char>, token: Seq<char> },
    VerifyTaken { user_id: Seq<char>, password: Seq<char> },
    VerifyHash { user_id: Seq<char> },
    VerifyUpdated,
    ResetToken { token: Seq<char> },
    ResetUser { token: Seq<char> },
    ResetTaken { user_id: Seq<char> },
    ResetTemp { user_id: Seq<char> },
    ResetHash { user_id: Seq<char>, temp: Seq<char> },
    ResetUpdated { temp: Seq<char> },
    ResetSent { user_id: Seq<char> },
}

impl View for PasswordState {
    type V = PasswordStateView;

    open spec fn view(&self) -> PasswordStateView {
        match self {
            PasswordState::ChangeHash { user_id } => PasswordStateView::ChangeHash {
                user_id: user_id@,
            },
            PasswordState::ChangeUpdated => PasswordStateView::ChangeUpdated,
            PasswordState::AlertToken { user } => PasswordStateView::AlertToken { user: user@ },
            PasswordState::AlertStored { user, token } => PasswordStateView::AlertStored {
                user: user@,
                token: token@,
            },
            PasswordState::AlertSent => PasswordStateView::AlertSent,
            PasswordState::ForgotUser => PasswordStateView::ForgotUser,
            PasswordState::ForgotThrottle { user } => PasswordStateView::ForgotThrottle {
                user: user@,
            },
            PasswordState::ForgotToken { user } => PasswordStateView::ForgotToken { user: user@ },
            PasswordState::ForgotStored { user, token } => PasswordStateView::ForgotStored {
                user: user@,
                token: token@,
            },
            PasswordState::ForgotSent { user_id } => PasswordStateView::ForgotSent {
                user_id: user_id@,
            },
            PasswordState::ForgotMarked => PasswordStateView::ForgotMarked,
            PasswordState::VerifyToken { password, token } => PasswordStateView::VerifyToken {
                password: password@,
                token: token@,
            },
            PasswordState::VerifyUser { password, token } => PasswordStateView::VerifyUser {
                password: password@,
                token: token@,
            },
            PasswordState::VerifyTaken { user_id, password } => PasswordStateView::VerifyTaken {
                user_id: user_id@,
                password: password@,
            },
            PasswordState::VerifyHash { user_id } => PasswordStateView::VerifyHash {
                user_id: user_id@,
            },
            PasswordState::VerifyUpdated => PasswordStateView::VerifyUpdated,
            PasswordState::ResetToken { token } => PasswordStateView::ResetToken { token: token@ },
            PasswordState::ResetUser { token } => PasswordStateView::ResetUser { token: token@ },
            PasswordState::ResetTaken { user_id } => PasswordStateView::ResetTaken {
                user_id: user_id@,
            },
            PasswordState::ResetTemp { user_id } => PasswordStateView::ResetTemp {
                user_id: user_id@,
            },
            PasswordState::ResetHash { user_id, temp } => PasswordStateView::ResetHash {
                user_id: user_id@,
                temp: temp@,
            },
            PasswordState::ResetUpdated { temp } => PasswordStateView::ResetUpdated { temp: temp@ },
            PasswordState::ResetSent { user_id } => PasswordStateView::ResetSent {
                user_id: user_id@,
            },
        }
    }
}

/// The first step of changing a password: a frozen account is refused,
/// otherwise the new password is hashed.
pub open spec fn begin_change_password_spec(session: UserSessionView, password: Seq<char>) -> (
    StateView,
    StepView,
) {
    if session.frozen {
        refuse_spec(AuthenticationError::AccountFrozen)
    } else {
        ask_spec(
            StateView::Password(PasswordStateView::ChangeHash { user_id: session.user_id }),
            RequestView::HashPassword { password },
        )
    }
}

/// Change the user's password, purge all their sessions and notify by
/// email. Sets a temporary password token in the cache. Works only with an
/// established session.
pub fn change_password(session: UserSession, data: ChangePassword) -> (r: (State, Step))
    ensures
        r.0@ == begin_change_password_spec(session@, data.password@).0,
        r.1@ == begin_change_password_spec(session@, data.password@).1,
{
    if session.frozen {
        refuse(AuthenticationError::AccountFrozen)
    } else {
        ask(
            State::Password(PasswordState::ChangeHash { user_id: session.user_id }),
            Request::HashPassword { password: data.password },
        )
    }
}

/// The first step for a forgotten password: the user with the given email.
pub open spec fn begin_forgot_password_spec(email: Seq<char>) -> (StateView, StepView) {
    ask_spec(
        StateView::Password(PasswordStateView::ForgotUser),
        RequestView::GetUserByEmail { email },
    )
}

/// Send a token by email with which a forgotten password can be replaced.
pub fn forgot_password(data: ForgotPassword) -> (r: (State, Step))
    ensures
        r.0@ == begin_forgot_password_spec(data.email@).0,
        r.1@ == begin_forgot_password_spec(data.email@).1,
{
    ask(State::Password(PasswordState::ForgotUser), Request::GetUserByEmail { email: data.email })
}

/// The first step of replacing a forgotten password: whom the token stands
/// for.
pub open spec fn begin_verify_forgot_password_spec(password: Seq<char>, token: Seq<char>) -> (
    StateView,
    StepView,
) {
    ask_spec(
        StateView::Password(PasswordStateView::VerifyToken { password, token }),
        RequestView::GetToken { cache_id: CacheId::PWToken, key: token },
    )
}

/// Verify a token sent to a user via email when they request a forgotten
/// password and change their password to the given one.
pub fn verify_forgot_password(data: ForgotPasswordVerify) -> (r: (State, Step))
    ensures
        r.0@ == begin_verify_forgot_password_spec(data.password@, data.token@).0,
        r.1@ == begin_verify_forgot_password_spec(data.password@, data.token@).1,
{
    let ForgotPasswordVerify { password, token } = data;
    let key = token.clone();
    ask(
        State::Password(PasswordState::VerifyToken { password, token }),
        Request::GetToken { cache_id: CacheId::PWToken, key },
    )
}

/// The first step of a reset: whom the token stands for.
pub open spec fn begin_reset_password_spec(token: Seq<char>) -> (StateView, StepView) {
    ask_spec(
        StateView::Password(PasswordStateView::ResetToken { token }),
        RequestView::GetToken { cache_id: CacheId::PWToken, key: token },
    )
}

/// Reset the user's password and send it to their email. Works only if a
/// temporary password token is in the cache.
pub fn reset_password(data: ResetPassword) -> (r: (State, Step))
    ensures
        r.0@ == begin_reset_password_spec(data.token@).0,
        r.1@ == begin_reset_password_spec(data.token@).1,
{
    let key = data.token.clone();
    ask(
        State::Password(PasswordState::ResetToken { token: data.token }),
        Request::GetToken { cache_id: CacheId::PWToken, key },
    )
}

/// The first step after the sessions of a user whose password was changed
/// are purged: a fresh token for the alert.
pub open spec fn begin_alert_spec(user: UserView) -> (StateView, StepView) {
    ask_spec(StateView::Password(PasswordStateView::AlertToken { user }), RequestView::FreshToken)
}

/// Begins the alert that follows a changed password.
pub fn begin_alert(user: User) -> (r: (State, Step))
    ensures
        r.0@ == begin_alert_spec(user@).0,
        r.1@ == begin_alert_spec(user@).1,
{
    ask(State::Password(PasswordState::AlertToken { user }), Request::FreshToken)
}

/// Passwords.
///
/// Changing: the new password is hashed and stored, every session of the
/// user is purged, the current one too, so that the user logs in again; then
/// a fresh password token is cached for the user's id and sent with the
/// alert. A failure to send the alert is not a failure of the change.
///
/// Forgotten: an unknown email ends the operation as a login with an unknown
/// email does, with `InvalidCredentials`. A user who was sent an email within
/// the throttle is told the same as one who is sent a token now, and nothing
/// is sent. Otherwise a fresh password token is cached for the user's id and
/// sent; a failure to send ends the operation with that failure; the time of
/// sending is noted for the throttle.
///
/// Replacing a forgotten password: a token that the cache does not hold
/// ends the operation with `InvalidToken(PWToken)`. The user it stands for
/// is looked up, and a frozen account is refused before anything is written
/// and with the token left. Then the token is taken from the cache; whoever
/// finds it taken is refused with `InvalidToken(PWToken)`. For whoever takes
/// it the given password is hashed and stored, every session of the user is
/// purged, and a new session is opened.
///
/// Resetting: a token that the cache does not hold ends the operation with
/// `InvalidToken(PWToken)`. The user it stands for is looked up, and a
/// frozen account is refused before anything is written and with the token
/// left. Then the token is taken from the cache; whoever finds it taken is
/// refused with `InvalidToken(PWToken)`. For whoever takes it a fresh
/// temporary password is hashed and stored and sent by email, and every
/// session of the user is purged. A failure to send is not a failure of the
/// reset.
pub open spec fn password_spec(
    config: ConfigView,
    now: u64,
    state: PasswordStateView,
    reply: ReplyView,
) -> (StateView, StepView) {
    match (state, reply) {
        (PasswordStateView::ChangeHash { user_id }, ReplyView::Text(Ok(hash))) => ask_spec(
            StateView::Password(PasswordStateView::ChangeUpdated),
            RequestView::UpdateUserPassword { id: user_id, password: hash },
        ),
        (PasswordStateView::ChangeUpdated, ReplyView::User(Ok(user))) => begin_purge_spec(
            user.id,
            None,
            AfterPurgeView::Alert { user },
        ),
        (PasswordStateView::AlertToken { user }, ReplyView::Text(Ok(token))) => ask_spec(
            StateView::Password(PasswordStateView::AlertStored { user, token }),
            RequestView::SetToken {
                cache_id: CacheId::PWToken,
                key: token,
                value: CacheValueView::Text(user.id),
                ttl: Some(config.ttl_of(CacheId::PWToken)),
            },
        ),
        (PasswordStateView::AlertStored { user, token }, ReplyView::Unit(Ok(_))) => ask_spec(
            StateView::Password(PasswordStateView::AlertSent),
            RequestView::SendMail {
                kind: MailKind::PasswordChangeAlert,
                username: user.username,
                email: user.email,
                text: token,
            },
        ),
        (PasswordStateView::AlertSent, ReplyView::Unit(_)) => done_spec(
            OutcomeView::Message { notice: Notice::PasswordChanged },
        ),
        (PasswordStateView::ForgotUser, ReplyView::User(Err(e))) => {
            if e.is_absent() {
                refuse_spec(AuthenticationError::InvalidCredentials)
            } else {
                super::fail_spec(e)
            }
        },
        (PasswordStateView::ForgotUser, ReplyView::User(Ok(user))) => {
            if user.frozen {
                refuse_spec(AuthenticationError::AccountFrozen)
            } else {
                ask_spec(
                    StateView::Password(PasswordStateView::ForgotThrottle { user }),
                    RequestView::GetToken { cache_id: CacheId::EmailThrottle, key: user.id },
                )
            }
        },
        (PasswordStateView::ForgotThrottle { user }, ReplyView::Value(Ok(Some(_)))) => done_spec(
            OutcomeView::Message { notice: Notice::ForgotPasswordSent },
        ),
        (PasswordStateView::ForgotThrottle { user }, ReplyView::Value(Ok(None))) => ask_spec(
            StateView::Password(PasswordStateView::ForgotToken { user }),
            RequestView::FreshToken,
        ),
        (PasswordStateView::ForgotToken { user }, ReplyView::Text(Ok(token))) => ask_spec(
            StateView::Password(PasswordStateView::ForgotStored { user, token }),
            RequestView::SetToken {
                cache_id: CacheId::PWToken,
                key: token,
                value: CacheValueView::Text(user.id),
                ttl: Some(config.ttl_of(CacheId::PWToken)),
            },
        ),
        (PasswordStateView::ForgotStored { user, token }, ReplyView::Unit(Ok(_))) => ask_spec(
            StateView::Password(PasswordStateView::ForgotSent { user_id: user.id }),
            RequestView::SendMail {
                kind: MailKind::ForgotPassword,
                username: user.username,
                email: user.email,
                text: token,
            },
        ),
        (PasswordStateView::ForgotSent { user_id }, ReplyView::Unit(Ok(_))) => ask_spec(
            StateView::Password(PasswordStateView::ForgotMarked),
            RequestView::SetToken {
                cache_id: CacheId::EmailThrottle,
                key: user_id,
                value: CacheValueView::Number(now),
                ttl: Some(config.ttl_of(CacheId::EmailThrottle)),
            },
        ),
        (PasswordStateView::ForgotMarked, ReplyView::Unit(Ok(_))) => done_spec(
            OutcomeView::Message { notice: Notice::ForgotPasswordSent },
        ),
        (
            PasswordStateView::VerifyToken { password, token },
            ReplyView::Value(Ok(Some(CacheValueView::Text(user_id)))),
        ) => ask_spec(
            StateView::Password(PasswordStateView::VerifyUser { password, token }),
            RequestView::GetUserById { id: user_id },
        ),
        (PasswordStateView::VerifyToken { password, token }, ReplyView::Value(Ok(_))) => {
            refuse_spec(AuthenticationError::InvalidToken(CacheId::PWToken))
        },
        (PasswordStateView::VerifyUser { password, token }, ReplyView::User(Ok(user))) => {
            if user.frozen {
                refuse_spec(AuthenticationError::AccountFrozen)
            } else {
                ask_spec(
                    StateView::Password(
                        PasswordStateView::VerifyTaken { user_id: user.id, password },
                    ),
                    RequestView::TakeToken { cache_id: CacheId::PWToken, key: token },
                )
            }
        },
        (
            PasswordStateView::VerifyTaken { user_id, password },
            ReplyView::Value(Ok(Some(_))),
        ) => ask_spec(
            StateView::Password(PasswordStateView::VerifyHash { user_id }),
            RequestView::HashPassword { password },
        ),
        (PasswordStateView::VerifyTaken { user_id, password }, ReplyView::Value(Ok(None))) => {
            refuse_spec(AuthenticationError::InvalidToken(CacheId::PWToken))
        },
        (PasswordStateView::VerifyHash { user_id }, ReplyView::Text(Ok(hash))) => ask_spec(
            StateView::Password(PasswordStateView::VerifyUpdated),
            RequestView::UpdateUserPassword { id: user_id, password: hash },
        ),
        (PasswordStateView::VerifyUpdated, ReplyView::User(Ok(user))) => begin_purge_spec(
            user.id,
            None,
            AfterPurgeView::Reissue { user },
        ),
        (
            PasswordStateView::ResetToken { token },
            ReplyView::Value(Ok(Some(CacheValueView::Text(user_id)))),
        ) => ask_spec(
            StateView::Password(PasswordStateView::ResetUser { token }),
            RequestView::GetUserById { id: user_id },
        ),
        (PasswordStateView::ResetToken { token }, ReplyView::Value(Ok(_))) => refuse_spec(
            AuthenticationError::InvalidToken(CacheId::PWToken),
        ),
        (PasswordStateView::ResetUser { token }, ReplyView::User(Ok(user))) => {
            if user.frozen {
                refuse_spec(AuthenticationError::AccountFrozen)
            } else {
                ask_spec(
                    StateView::Password(PasswordStateView::ResetTaken { user_id: user.id }),
                    RequestView::TakeToken { cache_id: CacheId::PWToken, key: token },
                )
            }
        },
        (PasswordStateView::ResetTaken { user_id }, ReplyView::Value(Ok(Some(_)))) => ask_spec(
            StateView::Password(PasswordStateView::ResetTemp { user_id }),
            RequestView::FreshToken,
        ),
        (PasswordStateView::ResetTaken { user_id }, ReplyView::Value(Ok(None))) => refuse_spec(
            AuthenticationError::InvalidToken(CacheId::PWToken),
        ),
        (PasswordStateView::ResetTemp { user_id }, ReplyView::Text(Ok(temp))) => ask_spec(
            StateView::Password(PasswordStateView::ResetHash { user_id, temp }),
            RequestView::HashPassword { password: temp },
        ),
        (PasswordStateView::ResetHash { user_id, temp }, ReplyView::Text(Ok(hash))) => ask_spec(
            StateView::Password(PasswordStateView::ResetUpdated { temp }),
            RequestView::UpdateUserPassword { id: user_id, password: hash },
        ),
        (PasswordStateView::ResetUpdated { temp }, ReplyView::User(Ok(user))) => ask_spec(
            StateView::Password(PasswordStateView::ResetSent { user_id: user.id }),
            RequestView::SendMail {
                kind: MailKind::ResetPassword,
                username: user.username,
                email: user.email,
                text: temp,
            },
        ),
        (PasswordStateView::ResetSent { user_id }, ReplyView::Unit(_)) => begin_purge_spec(
            user_id,
            None,
            AfterPurgeView::Finish { notice: Notice::PasswordReset },
        ),
        (_, reply) => stray_spec(reply),
    }
}

/// Decides on one answer of an operation on a password.
#[verifier::rlimit(30)]
pub fn password_step(config: &Config, now: u64, state: PasswordState, reply: Reply) -> (r: (
    State,
    Step,
))
    ensures
        r.0@ == password_spec(config@, now, state@, reply@).0,
        r.1@ == password_spec(config@, now, state@, reply@).1,
{
    match (state, reply) {
        (PasswordState::ChangeHash { user_id }, Reply::Text(Ok(hash))) => ask(
            State::Password(PasswordState::ChangeUpdated),
            Request::UpdateUserPassword { id: user_id, password: hash },
        ),
        (PasswordState::ChangeUpdated, Reply::User(Ok(user))) => {
            let user_id = user.id.clone();
            begin_purge(user_id, None, AfterPurge::Alert { user })
        },
        (PasswordState::AlertToken { user }, Reply::Text(Ok(token))) => {
            let key = token.clone();
            let value = CacheValue::Text(user.id.clone());
            ask(
                State::Password(PasswordState::AlertStored { user, token }),
                Request::SetToken {
                    cache_id: CacheId::PWToken,
                    key,
                    value,
                    ttl: Some(config.ttl_of(CacheId::PWToken)),
                },
            )
        },
        (PasswordState::AlertStored { user, token }, Reply::Unit(Ok(_))) => ask(
            State::Password(PasswordState::AlertSent),
            Request::SendMail {
                kind: MailKind::PasswordChangeAlert,
                username: user.username,
                email: user.email,
                text: token,
            },
        ),
        (PasswordState::AlertSent, Reply::Unit(_)) => done(
            Outcome::Message { notice: Notice::PasswordChanged },
        ),
        (PasswordState::ForgotUser, Reply::User(Err(e))) => {
            if e.is_absent() {
                refuse(AuthenticationError::InvalidCredentials)
            } else {
                super::fail(e)
            }
        },
        (PasswordState::ForgotUser, Reply::User(Ok(user))) => {
            if user.frozen {
                refuse(AuthenticationError::AccountFrozen)
            } else {
                let key = user.id.clone();
                ask(
                    State::Password(PasswordState::ForgotThrottle { user }),
                    Request::GetToken { cache_id: CacheId::EmailThrottle, key },
                )
            }
        },
        (PasswordState::ForgotThrottle { user }, Reply::Value(Ok(Some(_)))) => done(
            Outcome::Message { notice: Notice::ForgotPasswordSent },
        ),
        (PasswordState::ForgotThrottle { user }, Reply::Value(Ok(None))) => ask(
            State::Password(PasswordState::ForgotToken { user }),
            Request::FreshToken,
        ),
        (PasswordState::ForgotToken { user }, Reply::Text(Ok(token))) => {
            let key = token.clone();
            let value = CacheValue::Text(user.id.clone());
            ask(
                State::Password(PasswordState::ForgotStored { user, token }),
                Request::SetToken {
                    cache_id: CacheId::PWToken,
                    key,
                    value,
                    ttl: Some(config.ttl_of(CacheId::PWToken)),
                },
            )
        },
        (PasswordState::ForgotStored { user, token }, Reply::Unit(Ok(_))) => ask(
            State::Password(PasswordState::ForgotSent { user_id: user.id }),
            Request::SendMail {
                kind: MailKind::ForgotPassword,
                username: user.username,
                email: user.email,
                text: token,
            },
        ),
        (PasswordState::ForgotSent { user_id }, Reply::Unit(Ok(_))) => ask(
            State::Password(PasswordState::ForgotMarked),
            Request::SetToken {
                cache_id: CacheId::EmailThrottle,
                key: user_id,
                value: CacheValue::Number(now),
                ttl: Some(config.ttl_of(CacheId::EmailThrottle)),
            },
        ),
        (PasswordState::ForgotMarked, Reply::Unit(Ok(_))) => done(
            Outcome::Message { notice: Notice::ForgotPasswordSent },
        ),
        (
            PasswordState::VerifyToken { password, token },
            Reply::Value(Ok(Some(CacheValue::Text(user_id)))),
        ) => ask(
            State::Password(PasswordState::VerifyUser { password, token }),
            Request::GetUserById { id: user_id },
        ),
        (PasswordState::VerifyToken { password, token }, Reply::Value(Ok(_))) => refuse(
            AuthenticationError::InvalidToken(CacheId::PWToken),
        ),
        (PasswordState::VerifyUser { password, token }, Reply::User(Ok(user))) => {
            if user.frozen {
                refuse(AuthenticationError::AccountFrozen)
            } else {
                ask(
                    State::Password(PasswordState::VerifyTaken { user_id: user.id, password }),
                    Request::TakeToken { cache_id: CacheId::PWToken, key: token },
                )
            }
        },
        (PasswordState::VerifyTaken { user_id, password }, Reply::Value(Ok(Some(_)))) => ask(
            State::Password(PasswordState::VerifyHash { user_id }),
            Request::HashPassword { password },
        ),
        (PasswordState::VerifyTaken { user_id, password }, Reply::Value(Ok(None))) => refuse(
            AuthenticationError::InvalidToken(CacheId::PWToken),
        ),
        (PasswordState::VerifyHash { user_id }, Reply::Text(Ok(hash))) => ask(
            State::Password(PasswordState::VerifyUpdated),
            Request::UpdateUserPassword { id: user_id, password: hash },
        ),
        (PasswordState::VerifyUpdated, Reply::User(Ok(user))) => {
            let user_id = user.id.clone();
            begin_purge(user_id, None, AfterPurge::Reissue { user })
        },
        (
            PasswordState::ResetToken { token },
            Reply::Value(Ok(Some(CacheValue::Text(user_id)))),
        ) => ask(
            State::Password(PasswordState::ResetUser { token }),
            Request::GetUserById { id: user_id },
        ),
        (PasswordState::ResetToken { token }, Reply::Value(Ok(_))) => refuse(
            AuthenticationError::InvalidToken(CacheId::PWToken),
        ),
        (PasswordState::ResetUser { token }, Reply::User(Ok(user))) => {
            if user.frozen {
                refuse(AuthenticationError::AccountFrozen)
            } else {
                ask(
                    State::Password(PasswordState::ResetTaken { user_id: user.id }),
                    Request::TakeToken { cache_id: CacheId::PWToken, key: token },
                )
            }
        },
        (PasswordState::ResetTaken { user_id }, Reply::Value(Ok(Some(_)))) => ask(
            State::Password(PasswordState::ResetTemp { user_id }),
            Request::FreshToken,
        ),
        (PasswordState::ResetTaken { user_id }, Reply::Value(Ok(None))) => refuse(
            AuthenticationError::InvalidToken(CacheId::PWToken),
        ),
        (PasswordState::ResetTemp { user_id }, Reply::Text(Ok(temp))) => {
            let password = temp.clone();
            ask(
                State::Password(PasswordState::ResetHash { user_id, temp }),
                Request::HashPassword { password },
            )
        },
        (PasswordState::ResetHash { user_id, temp }, Reply::Text(Ok(hash))) => ask(
            State::Password(PasswordState::ResetUpdated { temp }),
            Request::UpdateUserPassword { id: user_id, password: hash },
        ),
        (PasswordState::ResetUpdated { temp }, Reply::User(Ok(user))) => {
            let user_id = user.id.clone();
            ask(
                State::Password(PasswordState::ResetSent { user_id }),
                Request::SendMail {
                    kind: MailKind::ResetPassword,
                    username: user.username,
                    email: user.email,
                    text: temp,
                },
            )
        },
        (PasswordState::ResetSent { user_id }, Reply::Unit(_)) => begin_purge(
            user_id,
            None,
            AfterPurge::Finish { notice: Notice::PasswordReset },
        ),
        (_, reply) => stray(reply),
    }
}

} // verus!
