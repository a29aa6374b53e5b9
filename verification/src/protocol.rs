//! What the service asks of its collaborators and what they answer. The
//! service itself touches no store, cache, mailer or clock: it is handed an
//! answer, decides, and either asks the next question or is done.

use crate::cache::{CacheValue, CacheValueView};
use crate::error::{Error, ErrorView};
use crate::model::{
    text_opt, CacheId, Session, SessionView, User, UserSession, UserSessionView, UserView,
};
use crate::repository::sessions_of;
use vstd::prelude::*;

verus! {

/// The thresholds and lifetimes the service works with. Built once and handed
/// to every decision.
#[derive(Debug, PartialEq, Eq)]
pub struct Config {
    /// Failed logins within the window after which logins are refused.
    pub login_attempt_limit: u64,
    /// Seconds for which failed logins are counted.
    pub login_attempt_window: u64,
    /// One-time-password attempts within the window that are still served.
    pub otp_attempt_limit: u64,
    /// Seconds for which one-time-password attempts are counted.
    pub otp_attempt_window: u64,
    /// Seconds a registration token can be redeemed.
    pub reg_token_ttl: u64,
    /// Seconds a one-time-password token can be redeemed.
    pub otp_token_ttl: u64,
    /// Seconds a password token can be redeemed.
    pub pw_token_ttl: u64,
    /// Seconds between two emails to one user.
    pub email_throttle: u64,
    /// Seconds a session lasts that is not permanent.
    pub session_ttl: u64,
    /// Whether the code of the time step before the current one is accepted.
    pub otp_skew: bool,
    /// The cost handed to the password hash.
    pub hash_cost: u32,
    /// The issuer named in the one-time-password URI.
    pub issuer: String,
}

pub struct ConfigView {
    pub login_attempt_limit: u64,
    pub login_attempt_window: u64,
    pub otp_attempt_limit: u64,
    pub otp_attempt_window: u64,
    pub reg_token_ttl: u64,
    pub otp_token_ttl: u64,
    pub pw_token_ttl: u64,
    pub email_throttle: u64,
    pub session_ttl: u64,
    pub otp_skew: bool,
    pub hash_cost: u32,
    pub issuer: Seq<char>,
}

impl View for Config {
    type V = ConfigView;

    open spec fn view(&self) -> ConfigView {
        ConfigView {
            login_attempt_limit: self.login_attempt_limit,
            login_attempt_window: self.login_attempt_window,
            otp_attempt_limit: self.otp_attempt_limit,
            otp_attempt_window: self.otp_attempt_window,
            reg_token_ttl: self.reg_token_ttl,
            otp_token_ttl: self.otp_token_ttl,
            pw_token_ttl: self.pw_token_ttl,
            email_throttle: self.email_throttle,
            session_ttl: self.session_ttl,
            otp_skew: self.otp_skew,
            hash_cost: self.hash_cost,
            issuer: self.issuer@,
        }
    }
}

impl ConfigView {
    /// How long what is cached under a kind is kept.
    pub open spec fn ttl_of(self, id: CacheId) -> u64 {
        match id {
            CacheId::Session => self.session_ttl,
            CacheId::RegToken => self.reg_token_ttl,
            CacheId::OTPToken => self.otp_token_ttl,
            CacheId::PWToken => self.pw_token_ttl,
            CacheId::LoginAttempts => self.login_attempt_window,
            CacheId::OTPThrottle => self.otp_attempt_window,
            CacheId::EmailThrottle => self.email_throttle,
        }
    }
}

impl Config {
    /// How long what is cached under a kind is kept.
    pub fn ttl_of(&self, id: CacheId) -> (r: u64)
        ensures
            r == self@.ttl_of(id),
    {
        match id {
            CacheId::Session => self.session_ttl,
            CacheId::RegToken => self.reg_token_ttl,
            CacheId::OTPToken => self.otp_token_ttl,
            CacheId::PWToken => self.pw_token_ttl,
            CacheId::LoginAttempts => self.login_attempt_window,
            CacheId::OTPThrottle => self.otp_attempt_window,
            CacheId::EmailThrottle => self.email_throttle,
        }
    }
}

/// The five messages the notifier sends.
#[derive(Clone, Copy, Debug, PartialEq, Eq, Structural)]
pub enum MailKind {
    RegistrationToken,
    PasswordChangeAlert,
    ResetPassword,
    ForgotPassword,
    FreezeAccount,
}

/// A question to a collaborator.
#[derive(Debug, PartialEq, Eq)]
pub enum Request {
    GetUserByEmail { email: String },
    GetUserById { id: String },
    CreateUser { email: String, username: String, password: String },
    FreezeUser { id: String },
    UpdateUserPassword { id: String, password: String },
    UpdateEmailVerifiedAt { id: String },
    SetUserOtpSecret { id: String, secret: String },
    CreateSession { user: User, csrf_token: String, permanent: bool },
    ExpireSession { id: String },
    PurgeSessions { user_id: String, skip: Option<String> },
    GetValidUserSession { id: String, csrf: String },
    SetSession { session: UserSession },
    GetSessionById { id: String },
    /// Removes the cached sessions with these ids.
    DropSessions { ids: Vec<String> },
    SetToken { cache_id: CacheId, key: String, value: CacheValue, ttl: Option<u64> },
    GetToken { cache_id: CacheId, key: String },
    /// Reads and removes in one step, so that of all who present a token
    /// at most one is answered with what it stands for.
    TakeToken { cache_id: CacheId, key: String },
    DeleteToken { cache_id: CacheId, key: String },
    CacheLoginAttempt { user_id: String },
    DeleteLoginAttempts { user_id: String },
    CacheOtpThrottle { user_id: String },
    DeleteOtpThrottle { user_id: String },
    SendMail { kind: MailKind, username: String, email: String, text: String },
    HashPassword { password: String },
    VerifyPassword { password: String, hash: String },
    /// A text that nobody can guess and that was never handed out before.
    FreshToken,
    /// A secret for one-time passwords that was never handed out before, in
    /// base32.
    FreshSecret,
    /// The one-time password of a secret at a time step.
    OneTimePassword { secret: String, step: u64 },
    /// The URI that an authenticator app reads a secret from.
    OtpUri { secret: String, account: String, issuer: String },
}

pub enum RequestView {
    GetUserByEmail { email: Seq<char> },
    GetUserById { id: Seq<char> },
    CreateUser { email: Seq<char>, username: Seq<char>, password: Seq<char> },
    FreezeUser { id: Seq<char> },
    UpdateUserPassword { id: Seq<char>, password: Seq<char> },
    UpdateEmailVerifiedAt { id: Seq<char> },
    SetUserOtpSecret { id: Seq<char>, secret: Seq<char> },
    CreateSession { user: UserView, csrf_token: Seq<char>, permanent: bool },
    ExpireSession { id: Seq<char> },
    PurgeSessions { user_id: Seq<char>, skip: Option<Seq<char>> },
    GetValidUserSession { id: Seq<char>, csrf: Seq<char> },
    SetSession { session: UserSessionView },
    GetSessionById { id: Seq<char> },
    DropSessions { ids: Seq<Seq<char>> },
    SetToken { cache_id: CacheId, key: Seq<char>, value: CacheValueView, ttl: Option<u64> },
    GetToken { cache_id: CacheId, key: Seq<char> },
    TakeToken { cache_id: CacheId, key: Seq<char> },
    DeleteToken { cache_id: CacheId, key: Seq<char> },
    CacheLoginAttempt { user_id: Seq<char> },
    DeleteLoginAttempts { user_id: Seq<char> },
    CacheOtpThrottle { user_id: Seq<char> },
    DeleteOtpThrottle { user_id: Seq<char> },
    SendMail { kind: MailKind, username: Seq<char>, email: Seq<char>, text: Seq<char> },
    HashPassword { password: Seq<char> },
    VerifyPassword { password: Seq<char>, hash: Seq<char> },
    FreshToken,
    FreshSecret,
    OneTimePassword { secret: Seq<char>, step: u64 },
    OtpUri { secret: Seq<char>, account: Seq<char>, issuer: Seq<char> },
}

/// Texts as plain characters.
pub open spec fn texts_of(v: Seq<String>) -> Seq<Seq<char>> {
    v.map_values(|s: String| s@)
}

impl View for Request {
    type V = RequestView;

    open spec fn view(&self) -> RequestView {
        match self {
            Request::GetUserByEmail { email } => RequestView::GetUserByEmail { email: email@ },
            Request::GetUserById { id } => RequestView::GetUserById { id: id@ },
            Request::CreateUser { email, username, password } => RequestView::CreateUser {
                email: email@,
                username: username@,
                password: password@,
            },
            Request::FreezeUser { id } => RequestView::FreezeUser { id: id@ },
            Request::UpdateUserPassword { id, password } => RequestView::UpdateUserPassword {
                id: id@,
                password: password@,
            },
            Request::UpdateEmailVerifiedAt { id } => RequestView::UpdateEmailVerifiedAt { id: id@ },
            Request::SetUserOtpSecret { id, secret } => RequestView::SetUserOtpSecret {
                id: id@,
                secret: secret@,
            },
            Request::CreateSession { user, csrf_token, permanent } => RequestView::CreateSession {
                user: user@,
                csrf_token: csrf_token@,
                permanent: *permanent,
            },
            Request::ExpireSession { id } => RequestView::ExpireSession { id: id@ },
            Request::PurgeSessions { user_id, skip } => RequestView::PurgeSessions {
                user_id: user_id@,
                skip: text_opt(*skip),
            },
            Request::GetValidUserSession { id, csrf } => RequestView::GetValidUserSession {
                id: id@,
                csrf: csrf@,
            },
            Request::SetSession { session } => RequestView::SetSession { session: session@ },
            Request::GetSessionById { id } => RequestView::GetSessionById { id: id@ },
            Request::DropSessions { ids } => RequestView::DropSessions { ids: texts_of(ids@) },
            Request::SetToken { cache_id, key, value, ttl } => RequestView::SetToken {
                cache_id: *cache_id,
                key: key@,
                value: value@,
                ttl: *ttl,
            },
            Request::GetToken { cache_id, key } => RequestView::GetToken {
                cache_id: *cache_id,
                key: key@,
            },
            Request::TakeToken { cache_id, key } => RequestView::TakeToken {
                cache_id: *cache_id,
                key: key@,
            },
            Request::DeleteToken { cache_id, key } => RequestView::DeleteToken {
                cache_id: *cache_id,
                key: key@,
            },
            Request::CacheLoginAttempt { user_id } => RequestView::CacheLoginAttempt {
                user_id: user_id@,
            },
            Request::DeleteLoginAttempts { user_id } => RequestView::DeleteLoginAttempts {
                user_id: user_id@,
            },
            Request::CacheOtpThrottle { user_id } => RequestView::CacheOtpThrottle {
                user_id: user_id@,
            },
            Request::DeleteOtpThrottle { user_id } => RequestView::DeleteOtpThrottle {
                user_id: user_id@,
            },
            Request::SendMail { kind, username, email, text } => RequestView::SendMail {
                kind: *kind,
                username: username@,
                email: email@,
                text: text@,
            },
            Request::HashPassword { password } => RequestView::HashPassword { password: password@ },
            Request::VerifyPassword { password, hash } => RequestView::VerifyPassword {
                password: password@,
                hash: hash@,
            },
            Request::FreshToken => RequestView::FreshToken,
            Request::FreshSecret => RequestView::FreshSecret,
            Request::OneTimePassword { secret, step } => RequestView::OneTimePassword {
                secret: secret@,
                step: *step,
            },
            Request::OtpUri { secret, account, issuer } => RequestView::OtpUri {
                secret: secret@,
                account: account@,
                issuer: issuer@,
            },
        }
    }
}

/// An answer of a collaborator. A failure is whatever the collaborator
/// reported.
#[derive(Debug, PartialEq, Eq)]
pub enum Reply {
    User(Result<User, Error>),
    Session(Result<Session, Error>),
    Sessions(Result<Vec<Session>, Error>),
    UserSession(Result<UserSession, Error>),
    /// What the cache holds under a key; nothing, if the key is not there.
    Value(Result<Option<CacheValue>, Error>),
    /// A counter after it was increased.
    Count(Result<u64, Error>),
    /// The outcome of something done for its effect.
    Unit(Result<(), Error>),
    Text(Result<String, Error>),
    Verdict(Result<bool, Error>),
}

pub enum ReplyView {
    User(Result<UserView, ErrorView>),
    Session(Result<SessionView, ErrorView>),
    Sessions(Result<Seq<SessionView>, ErrorView>),
    UserSession(Result<UserSessionView, ErrorView>),
    Value(Result<Option<CacheValueView>, ErrorView>),
    Count(Result<u64, ErrorView>),
    Unit(Result<(), ErrorView>),
    Text(Result<Seq<char>, ErrorView>),
    Verdict(Result<bool, ErrorView>),
}

impl View for Reply {
    type V = ReplyView;

    open spec fn view(&self) -> ReplyView {
        match self {
            Reply::User(Ok(u)) => ReplyView::User(Ok(u@)),
            Reply::User(Err(e)) => ReplyView::User(Err(e@)),
            Reply::Session(Ok(s)) => ReplyView::Session(Ok(s@)),
            Reply::Session(Err(e)) => ReplyView::Session(Err(e@)),
            Reply::Sessions(Ok(s)) => ReplyView::Sessions(Ok(sessions_of(s@))),
            Reply::Sessions(Err(e)) => ReplyView::Sessions(Err(e@)),
            Reply::UserSession(Ok(s)) => ReplyView::UserSession(Ok(s@)),
            Reply::UserSession(Err(e)) => ReplyView::UserSession(Err(e@)),
            Reply::Value(Ok(Some(v))) => ReplyView::Value(Ok(Some(v@))),
            Reply::Value(Ok(None)) => ReplyView::Value(Ok(None)),
            Reply::Value(Err(e)) => ReplyView::Value(Err(e@)),
            Reply::Count(Ok(n)) => ReplyView::Count(Ok(*n)),
            Reply::Count(Err(e)) => ReplyView::Count(Err(e@)),
            Reply::Unit(Ok(_)) => ReplyView::Unit(Ok(())),
            Reply::Unit(Err(e)) => ReplyView::Unit(Err(e@)),
            Reply::Text(Ok(t)) => ReplyView::Text(Ok(t@)),
            Reply::Text(Err(e)) => ReplyView::Text(Err(e@)),
            Reply::Verdict(Ok(b)) => ReplyView::Verdict(Ok(*b)),
            Reply::Verdict(Err(e)) => ReplyView::Verdict(Err(e@)),
        }
    }
}

/// What is said to the caller when a flow ends without a session.
#[derive(Clone, Copy, Debug, PartialEq, Eq, Structural)]
pub enum Notice {
    RegistrationStarted,
    EmailVerified,
    RegistrationTokenSent,
    PasswordChanged,
    ForgotPasswordSent,
    PasswordReset,
    LoggedOut,
    SessionsPurged,
}

/// How an operation ends well.
#[derive(Debug, PartialEq, Eq)]
pub enum Outcome {
    /// A session was opened. Its id goes into the session cookie, its CSRF
    /// token into the body of the response.
    SessionEstablished { session: Session, user_session: UserSession },
    /// The password was right and a one-time password is still owed. The
    /// token stands for the user until it is redeemed.
    OtpRequired { username: String, token: String, remember: bool },
    /// A new one-time-password secret, as the URI an authenticator app reads.
    OtpSecret { uri: String },
    /// The request may pass, as this user.
    Authorized { user_session: UserSession },
    Message { notice: Notice },
}

pub enum OutcomeView {
    SessionEstablished { session: SessionView, user_session: UserSessionView },
    OtpRequired { username: Seq<char>, token: Seq<char>, remember: bool },
    OtpSecret { uri: Seq<char> },
    Authorized { user_session: UserSessionView },
    Message { notice: Notice },
}

impl View for Outcome {
    type V = OutcomeView;

    open spec fn view(&self) -> OutcomeView {
        match self {
            Outcome::SessionEstablished { session, user_session } => {
                OutcomeView::SessionEstablished { session: session@, user_session: user_session@ }
            },
            Outcome::OtpRequired { username, token, remember } => OutcomeView::OtpRequired {
                username: username@,
                token: token@,
                remember: *remember,
            },
            Outcome::OtpSecret { uri } => OutcomeView::OtpSecret { uri: uri@ },
            Outcome::Authorized { user_session } => OutcomeView::Authorized {
                user_session: user_session@,
            },
            Outcome::Message { notice } => OutcomeView::Message { notice: *notice },
        }
    }
}

/// What a decision yields: the next question, or the end of the operation.
#[derive(Debug, PartialEq, Eq)]
pub enum Step {
    Ask(Request),
    Done(Result<Outcome, Error>),
}

pub enum StepView {
    Ask(RequestView),
    Done(Result<OutcomeView, ErrorView>),
}

impl View for Step {
    type V = StepView;

    open spec fn view(&self) -> StepView {
        match self {
            Step::Ask(r) => StepView::Ask(r@),
            Step::Done(Ok(o)) => StepView::Done(Ok(o@)),
            Step::Done(Err(e)) => StepView::Done(Err(e@)),
        }
    }
}

/// How an operation ended, as plain values.
pub open spec fn outcome_result(r: Result<Outcome, Error>) -> Result<OutcomeView, ErrorView> {
    match r {
        Ok(o) => Ok(o@),
        Err(e) => Err(e@),
    }
}

} // verus!
