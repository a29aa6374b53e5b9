//! The repository: users and sessions, found by id or email. Sessions are
//! never deleted; a session that is ended is marked expired.

use crate::error::{AdapterError, AdapterErrorView, Error, ErrorView};
use crate::model::{
    project, same_text, text_opt, Role, Session, SessionView, User, UserSession, UserSessionView,
    UserView,
};
use vstd::prelude::*;

verus! {

/// The failure that says that no record of the named kind is there.
pub open spec fn missing(kind: Seq<char>) -> ErrorView {
    ErrorView::Adapter(AdapterErrorView::DoesNotExist(kind))
}

/// The failure that says that a record of the named kind is already there.
pub open spec fn conflict(kind: Seq<char>) -> ErrorView {
    ErrorView::Adapter(AdapterErrorView::Failure(kind))
}

/// The result of a user lookup as plain values.
pub open spec fn user_result(r: Result<User, Error>) -> Result<UserView, ErrorView> {
    match r {
        Ok(u) => Ok(u@),
        Err(e) => Err(e@),
    }
}

/// The result of a session lookup as plain values.
pub open spec fn session_result(r: Result<Session, Error>) -> Result<SessionView, ErrorView> {
    match r {
        Ok(s) => Ok(s@),
        Err(e) => Err(e@),
    }
}

/// The result of a joined lookup as plain values.
pub open spec fn user_session_result(r: Result<UserSession, Error>) -> Result<
    UserSessionView,
    ErrorView,
> {
    match r {
        Ok(s) => Ok(s@),
        Err(e) => Err(e@),
    }
}

/// Users as plain values.
pub open spec fn users_of(v: Seq<User>) -> Seq<UserView> {
    v.map_values(|u: User| u@)
}

/// Sessions as plain values.
pub open spec fn sessions_of(v: Seq<Session>) -> Seq<SessionView> {
    v.map_values(|s: Session| s@)
}

/// A change to one user.
pub enum UserChange {
    Password(Seq<char>),
    Verified(u64),
    Frozen,
    Secret(Seq<char>),
}

/// The user after a change.
pub open spec fn changed(u: UserView, change: UserChange) -> UserView {
    match change {
        UserChange::Password(hash) => UserView { password: hash, ..u },
        UserChange::Verified(at) => UserView { email_verified_at: Some(at), ..u },
        UserChange::Frozen => UserView { frozen: true, ..u },
        UserChange::Secret(secret) => UserView { otp_secret: Some(secret), ..u },
    }
}

/// The user that registration creates: unverified, not frozen, without a
/// one-time-password secret.
pub open spec fn new_user(
    id: Seq<char>,
    email: Seq<char>,
    username: Seq<char>,
    password: Seq<char>,
) -> UserView {
    UserView {
        id,
        email,
        username,
        password,
        otp_secret: None,
        phone: None,
        role: Role::User,
        frozen: false,
        email_verified_at: None,
    }
}

/// The second at which a session opened at `now` ends.
pub open spec fn session_end(permanent: bool, now: u64, ttl: u64) -> u64 {
    if permanent || now + ttl > u64::MAX {
        u64::MAX
    } else {
        (now + ttl) as u64
    }
}

/// The session that a login of `user` opens.
pub open spec fn new_session(
    id: Seq<char>,
    user: UserView,
    csrf_token: Seq<char>,
    permanent: bool,
    now: u64,
    ttl: u64,
) -> SessionView {
    SessionView {
        id,
        user_id: user.id,
        csrf_token,
        permanent,
        otp_verified: user.otp_secret is Some,
        expires_at: session_end(permanent, now, ttl),
    }
}

/// Whether a purge of `user_id`'s sessions at `now` that spares `skip` ends
/// this session.
pub open spec fn purgeable(s: SessionView, user_id: Seq<char>, skip: Option<Seq<char>>, now: u64) -> bool {
    s.user_id == user_id && skip != Some(s.id) && s.live(now)
}

/// The sessions that a purge ends, in the order in which they are kept, each
/// as it is after the purge.
pub open spec fn purged(
    sessions: Seq<SessionView>,
    user_id: Seq<char>,
    skip: Option<Seq<char>>,
    now: u64,
) -> Seq<SessionView>
    decreases sessions.len(),
{
    if sessions.len() == 0 {
        Seq::empty()
    } else {
        let rest = purged(sessions.drop_last(), user_id, skip, now);
        if purgeable(sessions.last(), user_id, skip, now) {
            rest.push(sessions.last().expired(now))
        } else {
            rest
        }
    }
}

/// What the repository holds.
pub struct StoreView {
    pub users: Seq<UserView>,
    pub sessions: Seq<SessionView>,
}

impl StoreView {
    /// No two users share an id or an email, and no two sessions an id.
    pub open spec fn consistent(self) -> bool {
        &&& forall|i: int, j: int|
            0 <= i < j < self.users.len() ==> (#[trigger] self.users[i]).id != (
            #[trigger] self.users[j]).id
        &&& forall|i: int, j: int|
            0 <= i < j < self.users.len() ==> (#[trigger] self.users[i]).email != (
            #[trigger] self.users[j]).email
        &&& forall|i: int, j: int|
            0 <= i < j < self.sessions.len() ==> (#[trigger] self.sessions[i]).id != (
            #[trigger] self.sessions[j]).id
    }

    /// Whether a user has this id.
    pub open spec fn has_user_id(self, id: Seq<char>) -> bool {
        exists|i: int| 0 <= i < self.users.len() && (#[trigger] self.users[i]).id == id
    }

    /// Where the user with this id stands.
    pub open spec fn user_pos(self, id: Seq<char>) -> int {
        choose|i: int| 0 <= i < self.users.len() && (#[trigger] self.users[i]).id == id
    }

    /// Whether a user has this email.
    pub open spec fn has_email(self, email: Seq<char>) -> bool {
        exists|i: int| 0 <= i < self.users.len() && (#[trigger] self.users[i]).email == email
    }

    /// Where the user with this email stands.
    pub open spec fn email_pos(self, email: Seq<char>) -> int {
        choose|i: int| 0 <= i < self.users.len() && (#[trigger] self.users[i]).email == email
    }

    /// Whether a session has this id.
    pub open spec fn has_session(self, id: Seq<char>) -> bool {
        exists|i: int| 0 <= i < self.sessions.len() && (#[trigger] self.sessions[i]).id == id
    }

    /// Where the session with this id stands.
    pub open spec fn session_pos(self, id: Seq<char>) -> int {
        choose|i: int| 0 <= i < self.sessions.len() && (#[trigger] self.sessions[i]).id == id
    }

    /// The user with this id.
    pub open spec fn find_user(self, id: Seq<char>) -> Result<UserView, ErrorView> {
        if self.has_user_id(id) {
            Ok(self.users[self.user_pos(id)])
        } else {
            Err(missing("User"@))
        }
    }

    /// The user with this email.
    pub open spec fn find_user_by_email(self, email: Seq<char>) -> Result<UserView, ErrorView> {
        if self.has_email(email) {
            Ok(self.users[self.email_pos(email)])
        } else {
            Err(missing("User"@))
        }
    }

    /// The session with this id, ended or not.
    pub open spec fn find_session(self, id: Seq<char>) -> Result<SessionView, ErrorView> {
        if self.has_session(id) {
            Ok(self.sessions[self.session_pos(id)])
        } else {
            Err(missing("Session"@))
        }
    }

    /// The store after an attempt to add a user, and what the attempt gives.
    pub open spec fn create_user(
        self,
        id: Seq<char>,
        email: Seq<char>,
        username: Seq<char>,
        password: Seq<char>,
    ) -> (StoreView, Result<UserView, ErrorView>) {
        if self.has_user_id(id) || self.has_email(email) {
            (self, Err(conflict("User"@)))
        } else {
            let u = new_user(id, email, username, password);
            (StoreView { users: self.users.push(u), ..self }, Ok(u))
        }
    }

    /// The store after an attempt to change a user, and what the attempt gives.
    pub open spec fn update_user(self, id: Seq<char>, change: UserChange) -> (
        StoreView,
        Result<UserView, ErrorView>,
    ) {
        if self.has_user_id(id) {
            let i = self.user_pos(id);
            let u = changed(self.users[i], change);
            (StoreView { users: self.users.update(i, u), ..self }, Ok(u))
        } else {
            (self, Err(missing("User"@)))
        }
    }

    /// The store after an attempt to open a session, and what the attempt gives.
    pub open spec fn create_session(
        self,
        id: Seq<char>,
        user: UserView,
        csrf_token: Seq<char>,
        permanent: bool,
        now: u64,
        ttl: u64,
    ) -> (StoreView, Result<SessionView, ErrorView>) {
        if self.has_session(id) {
            (self, Err(conflict("Session"@)))
        } else {
            let s = new_session(id, user, csrf_token, permanent, now, ttl);
            (StoreView { sessions: self.sessions.push(s), ..self }, Ok(s))
        }
    }

    /// The store after an attempt to end a session, and what the attempt gives.
    pub open spec fn expire_session(self, id: Seq<char>, now: u64) -> (
        StoreView,
        Result<SessionView, ErrorView>,
    ) {
        if self.has_session(id) {
            let i = self.session_pos(id);
            let s = self.sessions[i].expired(now);
            (StoreView { sessions: self.sessions.update(i, s), ..self }, Ok(s))
        } else {
            (self, Err(missing("Session"@)))
        }
    }

    /// The store after ending every running session of `user_id` but `skip`.
    pub open spec fn purge_sessions(self, user_id: Seq<char>, skip: Option<Seq<char>>, now: u64) -> StoreView {
        StoreView {
            sessions: self.sessions.map_values(
                |s: SessionView|
                    if purgeable(s, user_id, skip, now) {
                        s.expired(now)
                    } else {
                        s
                    },
            ),
            ..self
        }
    }

    /// The running session with this id and CSRF token, joined with its
    /// owner.
    pub open spec fn valid_user_session(self, id: Seq<char>, csrf: Seq<char>, now: u64) -> Result<
        UserSessionView,
        ErrorView,
    > {
        if self.has_session(id) {
            let s = self.sessions[self.session_pos(id)];
            if s.live(now) && s.csrf_token == csrf && self.has_user_id(s.user_id) {
                Ok(project(s, self.users[self.user_pos(s.user_id)]))
            } else {
                Err(missing("Session"@))
            }
        } else {
            Err(missing("Session"@))
        }
    }
}

fn missing_error(kind: &str) -> (r: Error)
    ensures
        r@ == missing(kind@),
{
    Error::Adapter(AdapterError::DoesNotExist(String::from_str(kind)))
}

fn conflict_error(kind: &str) -> (r: Error)
    ensures
        r@ == conflict(kind@),
{
    Error::Adapter(AdapterError::Failure(String::from_str(kind)))
}

/// A change to one user, with the values it brings.
enum Change {
    Password(String),
    Verified(u64),
    Frozen,
    Secret(String),
}

impl View for Change {
    type V = UserChange;

    closed spec fn view(&self) -> UserChange {
        match self {
            Change::Password(h) => UserChange::Password(h@),
            Change::Verified(at) => UserChange::Verified(*at),
            Change::Frozen => UserChange::Frozen,
            Change::Secret(s) => UserChange::Secret(s@),
        }
    }
}

fn apply(u: &User, change: Change) -> (r: User)
    ensures
        r@ == changed(u@, change@),
{
    let mut next = u.clone();
    match change {
        Change::Password(hash) => {
            next.password = hash;
        },
        Change::Verified(at) => {
            next.email_verified_at = Some(at);
        },
        Change::Frozen => {
            next.frozen = true;
        },
        Change::Secret(secret) => {
            next.otp_secret = Some(secret);
        },
    }
    next
}

fn end_session(s: &Session, now: u64) -> (r: Session)
    ensures
        r@ == s@.expired(now),
{
    let mut next = s.clone();
    if !(next.expires_at < now) {
        next.expires_at = now;
    }
    next
}

/// An in-memory repository.
pub struct Repository {
    users: Vec<User>,
    sessions: Vec<Session>,
}

impl View for Repository {
    type V = StoreView;

    closed spec fn view(&self) -> StoreView {
        StoreView { users: users_of(self.users@), sessions: sessions_of(self.sessions@) }
    }
}

impl Repository {
    /// A repository without users and sessions.
    pub fn new() -> (r: Repository)
        ensures
            r@.consistent(),
            r@.users.len() == 0,
            r@.sessions.len() == 0,
    {
        Repository { users: Vec::new(), sessions: Vec::new() }
    }

    /// Every user, in the order in which they were created.
    pub fn users(&self) -> (r: Vec<User>)
        ensures
            users_of(r@) == self@.users,
    {
        let mut out: Vec<User> = Vec::new();
        let mut i: usize = 0;
        while i < self.users.len()
            invariant
                i <= self.users@.len(),
                out@.len() == i,
                forall|j: int| 0 <= j < i ==> out@[j]@ == self.users@[j]@,
            decreases self.users@.len() - i,
        {
            out.push(self.users[i].clone());
            i = i + 1;
        }
        proof {
            assert(users_of(out@) =~= self@.users);
        }
        out
    }

    /// Every session, ended or not, in the order in which they were opened.
    pub fn sessions(&self) -> (r: Vec<Session>)
        ensures
            sessions_of(r@) == self@.sessions,
    {
        let mut out: Vec<Session> = Vec::new();
        let mut i: usize = 0;
        while i < self.sessions.len()
            invariant
                i <= self.sessions@.len(),
                out@.len() == i,
                forall|j: int| 0 <= j < i ==> out@[j]@ == self.sessions@[j]@,
            decreases self.sessions@.len() - i,
        {
            out.push(self.sessions[i].clone());
            i = i + 1;
        }
        proof {
            assert(sessions_of(out@) =~= self@.sessions);
        }
        out
    }

    fn user_index(&self, id: &String) -> (r: Option<usize>)
        ensures
            match r {
                Some(i) => i < self@.users.len() && self@.users[i as int].id == id@,
                None => !self@.has_user_id(id@),
            },
            self@.consistent() && r is Some ==> self@.has_user_id(id@) && self@.user_pos(id@)
                == r->0,
    {
        let mut i: usize = 0;
        while i < self.users.len()
            invariant
                i <= self.users@.len(),
                forall|j: int| 0 <= j < i ==> (#[trigger] self@.users[j]).id != id@,
            decreases self.users@.len() - i,
        {
            if same_text(&self.users[i].id, id) {
                assert(self@.users[i as int].id == id@);
                return Some(i);
            }
            i = i + 1;
        }
        None
    }

    fn email_index(&self, email: &String) -> (r: Option<usize>)
        ensures
            match r {
                Some(i) => i < self@.users.len() && self@.users[i as int].email == email@,
                None => !self@.has_email(email@),
            },
            self@.consistent() && r is Some ==> self@.has_email(email@) && self@.email_pos(email@)
                == r->0,
    {
        let mut i: usize = 0;
        while i < self.users.len()
            invariant
                i <= self.users@.len(),
                forall|j: int| 0 <= j < i ==> (#[trigger] self@.users[j]).email != email@,
            decreases self.users@.len() - i,
        {
            if same_text(&self.users[i].email, email) {
                assert(self@.users[i as int].email == email@);
                return Some(i);
            }
            i = i + 1;
        }
        None
    }

    fn session_index(&self, id: &String) -> (r: Option<usize>)
        ensures
            match r {
                Some(i) => i < self@.sessions.len() && self@.sessions[i as int].id == id@,
                None => !self@.has_session(id@),
            },
            self@.consistent() && r is Some ==> self@.has_session(id@) && self@.session_pos(id@)
                == r->0,
    {
        let mut i: usize = 0;
        while i < self.sessions.len()
            invariant
                i <= self.sessions@.len(),
                forall|j: int| 0 <= j < i ==> (#[trigger] self@.sessions[j]).id != id@,
            decreases self.sessions@.len() - i,
        {
            if same_text(&self.sessions[i].id, id) {
                assert(self@.sessions[i as int].id == id@);
                return Some(i);
            }
            i = i + 1;
        }
        None
    }

    /// The user with this id.
    pub fn get_user_by_id(&self, id: &String) -> (r: Result<User, Error>)
        requires
            self@.consistent(),
        ensures
            user_result(r) == self@.find_user(id@),
    {
        match self.user_index(id) {
            Some(i) => Ok(self.users[i].clone()),
            None => Err(missing_error("User")),
        }
    }

    /// The user with this email.
    pub fn get_user_by_email(&self, email: &String) -> (r: Result<User, Error>)
        requires
            self@.consistent(),
        ensures
            user_result(r) == self@.find_user_by_email(email@),
    {
        match self.email_index(email) {
            Some(i) => Ok(self.users[i].clone()),
            None => Err(missing_error("User")),
        }
    }

    /// Adds a user under `id`, unless the id or the email is in use.
    pub fn create_user(
        &mut self,
        id: &String,
        email: &String,
        username: &String,
        password: &String,
    ) -> (r: Result<User, Error>)
        requires
            old(self)@.consistent(),
        ensures
            final(self)@.consistent(),
            (final(self)@, user_result(r)) == old(self)@.create_user(
                id@,
                email@,
                username@,
                password@,
            ),
    {
        if self.user_index(id).is_some() || self.email_index(email).is_some() {
            return Err(conflict_error("User"));
        }
        let user = User {
            id: id.clone(),
            email: email.clone(),
            username: username.clone(),
            password: password.clone(),
            otp_secret: None,
            phone: None,
            role: Role::User,
            frozen: false,
            email_verified_at: None,
        };
        let copy = user.clone();
        let ghost before = self@;
        self.users.push(user);
        proof {
            assert(self@.users =~= before.users.push(copy@));
            assert(self@.sessions =~= before.sessions);
        }
        Ok(copy)
    }

    fn update_user(&mut self, id: &String, change: Change) -> (r: Result<User, Error>)
        requires
            old(self)@.consistent(),
        ensures
            final(self)@.consistent(),
            (final(self)@, user_result(r)) == old(self)@.update_user(id@, change@),
    {
        match self.user_index(id) {
            Some(i) => {
                let next = apply(&self.users[i], change);
                let copy = next.clone();
                let ghost before = self@;
                self.users.set(i, next);
                proof {
                    assert(self@.users =~= before.users.update(i as int, copy@));
                    assert(self@.sessions =~= before.sessions);
                }
                Ok(copy)
            },
            None => Err(missing_error("User")),
        }
    }

    /// Freezes the account of a user.
    pub fn freeze_user(&mut self, id: &String) -> (r: Result<User, Error>)
        requires
            old(self)@.consistent(),
        ensures
            final(self)@.consistent(),
            (final(self)@, user_result(r)) == old(self)@.update_user(id@, UserChange::Frozen),
    {
        self.update_user(id, Change::Frozen)
    }

    /// Stores a new password hash for a user.
    pub fn update_user_password(&mut self, id: &String, hashed_pw: &String) -> (r: Result<
        User,
        Error,
    >)
        requires
            old(self)@.consistent(),
        ensures
            final(self)@.consistent(),
            (final(self)@, user_result(r)) == old(self)@.update_user(
                id@,
                UserChange::Password(hashed_pw@),
            ),
    {
        self.update_user(id, Change::Password(hashed_pw.clone()))
    }

    /// Marks the email of a user as verified at `now`.
    pub fn update_email_verified_at(&mut self, id: &String, now: u64) -> (r: Result<User, Error>)
        requires
            old(self)@.consistent(),
        ensures
            final(self)@.consistent(),
            (final(self)@, user_result(r)) == old(self)@.update_user(
                id@,
                UserChange::Verified(now),
            ),
    {
        self.update_user(id, Change::Verified(now))
    }

    /// Stores a new one-time-password secret for a user, in place of the one
    /// before.
    pub fn set_user_otp_secret(&mut self, id: &String, secret: &String) -> (r: Result<User, Error>)
        requires
            old(self)@.consistent(),
        ensures
            final(self)@.consistent(),
            (final(self)@, user_result(r)) == old(self)@.update_user(
                id@,
                UserChange::Secret(secret@),
            ),
    {
        self.update_user(id, Change::Secret(secret.clone()))
    }

    /// Opens a session of `user` under `id`, unless the id is in use. The
    /// session ends `ttl` seconds from `now`, or never if it is permanent.
    pub fn create_session(
        &mut self,
        id: &String,
        user: &User,
        csrf_token: &String,
        permanent: bool,
        now: u64,
        ttl: u64,
    ) -> (r: Result<Session, Error>)
        requires
            old(self)@.consistent(),
        ensures
            final(self)@.consistent(),
            (final(self)@, session_result(r)) == old(self)@.create_session(
                id@,
                user@,
                csrf_token@,
                permanent,
                now,
                ttl,
            ),
    {
        if self.session_index(id).is_some() {
            return Err(conflict_error("Session"));
        }
        let expires_at = if permanent || ttl > u64::MAX - now {
            u64::MAX
        } else {
            now + ttl
        };
        let session = Session {
            id: id.clone(),
            user_id: user.id.clone(),
            csrf_token: csrf_token.clone(),
            permanent,
            otp_verified: user.otp_secret.is_some(),
            expires_at,
        };
        let copy = session.clone();
        let ghost before = self@;
        self.sessions.push(session);
        proof {
            assert(self@.sessions =~= before.sessions.push(copy@));
            assert(self@.users =~= before.users);
        }
        Ok(copy)
    }

    /// Marks a session as ended at `now`.
    pub fn expire_session(&mut self, id: &String, now: u64) -> (r: Result<Session, Error>)
        requires
            old(self)@.consistent(),
        ensures
            final(self)@.consistent(),
            (final(self)@, session_result(r)) == old(self)@.expire_session(id@, now),
    {
        match self.session_index(id) {
            Some(i) => {
                let next = end_session(&self.sessions[i], now);
                let copy = next.clone();
                let ghost before = self@;
                self.sessions.set(i, next);
                proof {
                    assert(self@.sessions =~= before.sessions.update(i as int, copy@));
                    assert(self@.users =~= before.users);
                }
                Ok(copy)
            },
            None => Err(missing_error("Session")),
        }
    }

    /// Ends every running session of `user_id` but `skip`, and returns
    /// exactly the sessions it ended.
    pub fn purge_sessions(&mut self, user_id: &String, skip: &Option<String>, now: u64) -> (r: Vec<
        Session,
    >)
        requires
            old(self)@.consistent(),
        ensures
            final(self)@.consistent(),
            final(self)@ == old(self)@.purge_sessions(user_id@, text_opt(*skip), now),
            sessions_of(r@) == purged(old(self)@.sessions, user_id@, text_opt(*skip), now),
    {
        let ghost before = self@;
        let ghost sk = text_opt(*skip);
        let mut ended: Vec<Session> = Vec::new();
        let mut i: usize = 0;
        while i < self.sessions.len()
            invariant
                i <= self.sessions@.len(),
                self@.users == before.users,
                self@.sessions.len() == before.sessions.len(),
                sk == text_opt(*skip),
                forall|j: int|
                    0 <= j < i ==> #[trigger] self@.sessions[j] == (if purgeable(
                        before.sessions[j],
                        user_id@,
                        sk,
                        now,
                    ) {
                        before.sessions[j].expired(now)
                    } else {
                        before.sessions[j]
                    }),
                forall|j: int|
                    i <= j < before.sessions.len() ==> #[trigger] self@.sessions[j]
                        == before.sessions[j],
                sessions_of(ended@) == purged(before.sessions.take(i as int), user_id@, sk, now),
            decreases self.sessions@.len() - i,
        {
            let ghost mid = self@;
            let ghost was = sessions_of(ended@);
            assert(self@.sessions[i as int] == before.sessions[i as int]);
            let spared = match skip {
                Some(s) => same_text(s, &self.sessions[i].id),
                None => false,
            };
            let hit = same_text(&self.sessions[i].user_id, user_id) && !spared && now
                < self.sessions[i].expires_at;
            proof {
                assert(before.sessions.take(i + 1).drop_last() == before.sessions.take(i as int));
                assert(before.sessions.take(i + 1).last() == before.sessions[i as int]);
                assert(hit == purgeable(before.sessions[i as int], user_id@, sk, now));
            }
            if hit {
                let next = end_session(&self.sessions[i], now);
                ended.push(next.clone());
                self.sessions.set(i, next);
                proof {
                    assert(self@.sessions =~= mid.sessions.update(
                        i as int,
                        before.sessions[i as int].expired(now),
                    ));
                    assert(self@.users =~= mid.users);
                    assert(sessions_of(ended@) =~= was.push(before.sessions[i as int].expired(now)));
                }
            }
            i = i + 1;
        }
        proof {
            assert(before.sessions.take(before.sessions.len() as int) == before.sessions);
            assert(self@.sessions =~= before.purge_sessions(user_id@, sk, now).sessions);
        }
        ended
    }

    /// The running session with this id and CSRF token, joined with its
    /// owner.
    pub fn get_valid_user_session(&self, id: &String, csrf: &String, now: u64) -> (r: Result<
        UserSession,
        Error,
    >)
        requires
            self@.consistent(),
        ensures
            user_session_result(r) == self@.valid_user_session(id@, csrf@, now),
    {
        match self.session_index(id) {
            Some(i) => {
                let s = &self.sessions[i];
                if now < s.expires_at && same_text(&s.csrf_token, csrf) {
                    match self.user_index(&s.user_id) {
                        Some(u) => Ok(UserSession::new(s, &self.users[u])),
                        None => Err(missing_error("Session")),
                    }
                } else {
                    Err(missing_error("Session"))
                }
            },
            None => Err(missing_error("Session")),
        }
    }
}

} // verus!
