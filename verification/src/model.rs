//! The records the engine keeps: users, sessions, and the projection of both
//! that is cached for request authorization.

use vstd::prelude::*;

verus! {

/// What a caller may do. Roles are ordered by `rank`.
#[derive(Clone, Copy, Debug, PartialEq, Eq, Structural)]
pub enum Role {
    User,
    Admin,
}

impl Role {
    /// The place of a role in the order of roles.
    pub open spec fn rank_spec(self) -> nat {
        match self {
            Role::User => 0,
            Role::Admin => 1,
        }
    }

    /// The place of a role in the order of roles.
    pub fn rank(self) -> (r: u8)
        ensures
            r == self.rank_spec(),
    {
        match self {
            Role::User => 0,
            Role::Admin => 1,
        }
    }

    /// Whether a user with this role may do what asks for `required`.
    pub open spec fn satisfies(self, required: Role) -> bool {
        self.rank_spec() >= required.rank_spec()
    }
}

/// The namespaces of the cache. A key is only meaningful together with its
/// namespace, so two kinds can never collide on a key.
#[derive(Clone, Copy, Debug, PartialEq, Eq, Structural)]
pub enum CacheId {
    Session,
    RegToken,
    OTPToken,
    PWToken,
    LoginAttempts,
    OTPThrottle,
    EmailThrottle,
}

impl CacheId {
    /// The kinds whose entries are tokens that may be redeemed once.
    pub open spec fn single_use_spec(self) -> bool {
        self == CacheId::RegToken || self == CacheId::OTPToken || self == CacheId::PWToken
    }

    /// Whether entries of this kind are tokens that may be redeemed once.
    pub fn single_use(self) -> (r: bool)
        ensures
            r == self.single_use_spec(),
    {
        match self {
            CacheId::RegToken | CacheId::OTPToken | CacheId::PWToken => true,
            _ => false,
        }
    }
}

/// An optional text as plain characters.
pub open spec fn text_opt(o: Option<String>) -> Option<Seq<char>> {
    match o {
        Some(s) => Some(s@),
        None => None,
    }
}

/// A copy of an optional text.
pub fn copy_text_opt(o: &Option<String>) -> (r: Option<String>)
    ensures
        text_opt(r) == text_opt(*o),
{
    match o {
        Some(s) => Some(s.clone()),
        None => None,
    }
}

/// An account.
#[derive(Debug, PartialEq, Eq)]
pub struct User {
    pub id: String,
    pub email: String,
    pub username: String,
    /// The stored password hash, never the password.
    pub password: String,
    pub otp_secret: Option<String>,
    pub phone: Option<String>,
    pub role: Role,
    pub frozen: bool,
    /// Seconds since the epoch at which the email was confirmed.
    pub email_verified_at: Option<u64>,
}

pub struct UserView {
    pub id: Seq<char>,
    pub email: Seq<char>,
    pub username: Seq<char>,
    pub password: Seq<char>,
    pub otp_secret: Option<Seq<char>>,
    pub phone: Option<Seq<char>>,
    pub role: Role,
    pub frozen: bool,
    pub email_verified_at: Option<u64>,
}

impl View for User {
    type V = UserView;

    open spec fn view(&self) -> UserView {
        UserView {
            id: self.id@,
            email: self.email@,
            username: self.username@,
            password: self.password@,
            otp_secret: text_opt(self.otp_secret),
            phone: text_opt(self.phone),
            role: self.role,
            frozen: self.frozen,
            email_verified_at: self.email_verified_at,
        }
    }
}

impl Clone for User {
    fn clone(&self) -> (r: Self)
        ensures
            r@ == self@,
    {
        User {
            id: self.id.clone(),
            email: self.email.clone(),
            username: self.username.clone(),
            password: self.password.clone(),
            otp_secret: copy_text_opt(&self.otp_secret),
            phone: copy_text_opt(&self.phone),
            role: self.role,
            frozen: self.frozen,
            email_verified_at: self.email_verified_at,
        }
    }
}

/// The durable record of one login.
#[derive(Debug, PartialEq, Eq)]
pub struct Session {
    pub id: String,
    pub user_id: String,
    pub csrf_token: String,
    /// Set by "remember me": the session does not lapse by itself.
    pub permanent: bool,
    /// Whether a one-time password was checked when the session was opened.
    pub otp_verified: bool,
    /// Seconds since the epoch from which the session is no longer valid.
    pub expires_at: u64,
}

pub struct SessionView {
    pub id: Seq<char>,
    pub user_id: Seq<char>,
    pub csrf_token: Seq<char>,
    pub permanent: bool,
    pub otp_verified: bool,
    pub expires_at: u64,
}

impl SessionView {
    /// Whether the session still runs at `now`.
    pub open spec fn live(self, now: u64) -> bool {
        now < self.expires_at
    }

    /// The session marked as ended at `now`; one that ended before keeps its
    /// end.
    pub open spec fn expired(self, now: u64) -> SessionView {
        SessionView { expires_at: if self.expires_at < now { self.expires_at } else { now }, ..self }
    }
}

impl View for Session {
    type V = SessionView;

    open spec fn view(&self) -> SessionView {
        SessionView {
            id: self.id@,
            user_id: self.user_id@,
            csrf_token: self.csrf_token@,
            permanent: self.permanent,
            otp_verified: self.otp_verified,
            expires_at: self.expires_at,
        }
    }
}

impl Clone for Session {
    fn clone(&self) -> (r: Self)
        ensures
            r@ == self@,
    {
        Session {
            id: self.id.clone(),
            user_id: self.user_id.clone(),
            csrf_token: self.csrf_token.clone(),
            permanent: self.permanent,
            otp_verified: self.otp_verified,
            expires_at: self.expires_at,
        }
    }
}

/// What the cache holds of a session and its user: all that authorizing a
/// request needs, so that the guard never joins two records.
#[derive(Debug, PartialEq, Eq)]
pub struct UserSession {
    pub id: String,
    pub csrf: String,
    pub user_id: String,
    pub user_role: Role,
    pub user_email: String,
    pub user_name: String,
    pub user_phone: Option<String>,
    pub frozen: bool,
    pub expires_at: u64,
}

pub struct UserSessionView {
    pub id: Seq<char>,
    pub csrf: Seq<char>,
    pub user_id: Seq<char>,
    pub user_role: Role,
    pub user_email: Seq<char>,
    pub user_name: Seq<char>,
    pub user_phone: Option<Seq<char>>,
    pub frozen: bool,
    pub expires_at: u64,
}

impl View for UserSession {
    type V = UserSessionView;

    open spec fn view(&self) -> UserSessionView {
        UserSessionView {
            id: self.id@,
            csrf: self.csrf@,
            user_id: self.user_id@,
            user_role: self.user_role,
            user_email: self.user_email@,
            user_name: self.user_name@,
            user_phone: text_opt(self.user_phone),
            frozen: self.frozen,
            expires_at: self.expires_at,
        }
    }
}

impl Clone for UserSession {
    fn clone(&self) -> (r: Self)
        ensures
            r@ == self@,
    {
        UserSession {
            id: self.id.clone(),
            csrf: self.csrf.clone(),
            user_id: self.user_id.clone(),
            user_role: self.user_role,
            user_email: self.user_email.clone(),
            user_name: self.user_name.clone(),
            user_phone: copy_text_opt(&self.user_phone),
            frozen: self.frozen,
            expires_at: self.expires_at,
        }
    }
}

/// The cached projection of `session` and its owner `user`.
pub open spec fn project(session: SessionView, user: UserView) -> UserSessionView {
    UserSessionView {
        id: session.id,
        csrf: session.csrf_token,
        user_id: user.id,
        user_role: user.role,
        user_email: user.email,
        user_name: user.username,
        user_phone: user.phone,
        frozen: user.frozen,
        expires_at: session.expires_at,
    }
}

impl UserSession {
    /// Joins a session with its owner.
    pub fn new(session: &Session, user: &User) -> (r: UserSession)
        ensures
            r@ == project(session@, user@),
    {
        UserSession {
            id: session.id.clone(),
            csrf: session.csrf_token.clone(),
            user_id: user.id.clone(),
            user_role: user.role,
            user_email: user.email.clone(),
            user_name: user.username.clone(),
            user_phone: copy_text_opt(&user.phone),
            frozen: user.frozen,
            expires_at: session.expires_at,
        }
    }
}

/// Whether two texts hold the same characters.
pub fn same_text(a: &String, b: &String) -> (r: bool)
    ensures
        r == (a@ == b@),
{
    *a == *b
}

} // verus!
