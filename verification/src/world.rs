//! The service with everything it needs in memory: a repository, a cache
//! and an outbox in place of a notifier. `run` drives an operation to its
//! end against them, answering each question as the contracts of the
//! collaborators say. Randomness is handed in, so that a run is a function
//! of the world, the operation, the clock and the random blocks.

use crate::cache::{
    bumped, count_of, lookup, next_count, removed, stored, Cache, CacheMap, CacheValue,
};
use crate::crypto::{
    base32_bytes, base32_decode, base32_encode, base32_text, bcrypt_digest, bcrypt_verdict,
    cost_allowed, generate_secret, hash_with_salt, kind_known, otp, otp_code, otp_uri,
    otp_uri_text, uuid_of, uuid_text, verify,
};
use crate::error::{Error, ErrorView};
use crate::model::CacheId;
use crate::protocol::{
    outcome_result, texts_of, Config, ConfigView, MailKind, Outcome, OutcomeView, Reply, ReplyView,
    Request, RequestView, Step, StepView,
};
use crate::repository::{Repository, StoreView, UserChange};
use crate::service::{advance, advance_spec, State, StateView};
use vstd::prelude::*;

verus! {

/// A message that the notifier is to deliver.
#[derive(Debug, PartialEq, Eq)]
pub struct Mail {
    pub kind: MailKind,
    pub username: String,
    pub email: String,
    /// The token or the temporary password that the message carries.
    pub text: String,
}

pub struct MailView {
    pub kind: MailKind,
    pub username: Seq<char>,
    pub email: Seq<char>,
    pub text: Seq<char>,
}

impl View for Mail {
    type V = MailView;

    open spec fn view(&self) -> MailView {
        MailView { kind: self.kind, username: self.username@, email: self.email@, text: self.text@ }
    }
}

/// Mail as plain values.
pub open spec fn mails_of(v: Seq<Mail>) -> Seq<MailView> {
    v.map_values(|m: Mail| m@)
}

/// Random blocks as plain bytes.
pub open spec fn blocks_of(v: Seq<Vec<u8>>) -> Seq<Seq<u8>> {
    v.map_values(|b: Vec<u8>| b@)
}

/// The most questions that `run` answers for one operation. No operation
/// asks as many.
pub const STEPS: usize = 16;

/// The bytes in each random block that `execute` draws.
pub const BLOCK: usize = 20;

/// Whether random blocks are as `execute` draws them: one for every
/// question that a run answers at most, each of `BLOCK` bytes.
pub open spec fn drawn(entropy: Seq<Seq<u8>>) -> bool {
    &&& entropy.len() == STEPS
    &&& forall|j: int| 0 <= j < entropy.len() ==> (#[trigger] entropy[j]).len() == BLOCK
}

/// The kind of one-time password the service issues.
pub const OTP_KIND: &'static str = "totp";

pub struct WorldView {
    pub config: ConfigView,
    pub store: StoreView,
    pub cache: CacheMap,
    pub outbox: Seq<MailView>,
}

/// What answering one question leaves: the world, the answer, and the
/// random blocks that are not used up.
pub struct Effect {
    pub world: WorldView,
    pub reply: ReplyView,
    pub entropy: Seq<Seq<u8>>,
}

/// The failure of a cryptographic step, named after the step.
pub open spec fn crypto_failure(what: Seq<char>) -> ErrorView {
    ErrorView::Crypto(what)
}

/// The id or token made of a random block: the version-4 UUID of its first
/// 16 bytes.
pub open spec fn id_of(block: Seq<u8>) -> Seq<char> {
    uuid_text(block.take(16))
}

/// The id or token made of a random block; a block of fewer than 16 bytes
/// makes none.
pub open spec fn id_of_block(block: Seq<u8>) -> Result<Seq<char>, ErrorView> {
    if block.len() >= 16 {
        Ok(id_of(block))
    } else {
        Err(crypto_failure("entropy"@))
    }
}

/// The id or token made of the next random block.
pub open spec fn fresh_id(entropy: Seq<Seq<u8>>) -> Result<Seq<char>, ErrorView> {
    if entropy.len() > 0 {
        id_of_block(entropy[0])
    } else {
        Err(crypto_failure("entropy"@))
    }
}

/// The one-time-password secret made of the next random block: the block
/// in base32.
pub open spec fn fresh_secret(entropy: Seq<Seq<u8>>) -> Result<Seq<char>, ErrorView> {
    if entropy.len() > 0 {
        Ok(base32_text(entropy[0]))
    } else {
        Err(crypto_failure("entropy"@))
    }
}

/// The text made of the next random block: a secret, or else an id or
/// token.
pub open spec fn fresh_text(entropy: Seq<Seq<u8>>, secret: bool) -> Result<Seq<char>, ErrorView> {
    if secret {
        fresh_secret(entropy)
    } else {
        fresh_id(entropy)
    }
}

/// The hash of a password, salted with the first 16 bytes of the next random
/// block.
pub open spec fn fresh_hash(password: Seq<char>, cost: u32, entropy: Seq<Seq<u8>>) -> Result<
    Seq<char>,
    ErrorView,
> {
    if entropy.len() > 0 {
        hash_of(password, cost, entropy[0])
    } else {
        Err(crypto_failure("entropy"@))
    }
}

/// The one-time password of a base32 secret at a time step.
pub open spec fn one_time_password(secret: Seq<char>, step: u64) -> Result<Seq<char>, ErrorView> {
    match base32_bytes(secret) {
        Some(bytes) => Ok(otp_code(bytes, step)),
        None => Err(crypto_failure("otp"@)),
    }
}

/// The URI that carries a secret for an account and an issuer.
pub open spec fn uri_of(secret: Seq<char>, account: Seq<char>, issuer: Seq<char>) -> Result<
    Seq<char>,
    ErrorView,
> {
    if kind_known(OTP_KIND@) {
        Ok(otp_uri_text(OTP_KIND@, secret, account, issuer))
    } else {
        Err(crypto_failure("otp"@))
    }
}

/// The seconds that a session which ends at `expires_at` still has at `now`.
pub open spec fn seconds_left(expires_at: u64, now: u64) -> u64 {
    if expires_at > now {
        (expires_at - now) as u64
    } else {
        0
    }
}

/// The seconds that a session which ends at `expires_at` still has at
/// `now`: so long its projection is kept in the cache.
pub fn time_left(expires_at: u64, now: u64) -> (r: u64)
    ensures
        r == seconds_left(expires_at, now),
{
    if expires_at > now {
        expires_at - now
    } else {
        0
    }
}

/// The cache without the sessions with these ids.
pub open spec fn drop_all(m: CacheMap, ids: Seq<Seq<char>>) -> CacheMap
    decreases ids.len(),
{
    if ids.len() == 0 {
        m
    } else {
        removed(drop_all(m, ids.drop_last()), CacheId::Session, ids.last())
    }
}

impl WorldView {
    /// The repository holds no id or email twice.
    pub open spec fn consistent(self) -> bool {
        self.store.consistent()
    }

    /// The world as it is, with an answer.
    pub open spec fn answer(self, reply: ReplyView, entropy: Seq<Seq<u8>>) -> Effect {
        Effect { world: self, reply, entropy }
    }

    /// The world with another repository.
    pub open spec fn with_store(self, store: StoreView) -> WorldView {
        WorldView { store, ..self }
    }

    /// The world with another cache.
    pub open spec fn with_cache(self, cache: CacheMap) -> WorldView {
        WorldView { cache, ..self }
    }

    /// The world after an attempt to change a user, with the answer.
    pub open spec fn change_user(self, id: Seq<char>, change: UserChange, entropy: Seq<Seq<u8>>) -> Effect {
        let (store, r) = self.store.update_user(id, change);
        self.with_store(store).answer(ReplyView::User(r), entropy)
    }

    /// The world without what the cache held under a kind and key.
    pub open spec fn forget(self, id: CacheId, key: Seq<char>, entropy: Seq<Seq<u8>>) -> Effect {
        self.with_cache(removed(self.cache, id, key)).answer(ReplyView::Unit(Ok(())), entropy)
    }

    /// The world after one more count under a kind and key, with the new
    /// count.
    pub open spec fn count(self, id: CacheId, key: Seq<char>, window: u64, now: u64, entropy: Seq<Seq<u8>>) -> Effect {
        self.with_cache(bumped(self.cache, id, key, window, now)).answer(
            ReplyView::Count(Ok(next_count(count_of(self.cache, id, key, now)))),
            entropy,
        )
    }

    /// The answer to one question at `now`, and what the question leaves of
    /// the world and of the random blocks.
    pub open spec fn perform(self, request: RequestView, now: u64, entropy: Seq<Seq<u8>>) -> Effect {
        match request {
            RequestView::GetUserByEmail { email } => self.answer(
                ReplyView::User(self.store.find_user_by_email(email)),
                entropy,
            ),
            RequestView::GetUserById { id } => self.answer(
                ReplyView::User(self.store.find_user(id)),
                entropy,
            ),
            RequestView::CreateUser { email, username, password } => match fresh_id(entropy) {
                Ok(id) => {
                    let (store, r) = self.store.create_user(id, email, username, password);
                    self.with_store(store).answer(ReplyView::User(r), entropy.skip(1))
                },
                Err(e) => self.answer(ReplyView::User(Err(e)), entropy),
            },
            RequestView::FreezeUser { id } => self.change_user(id, UserChange::Frozen, entropy),
            RequestView::UpdateUserPassword { id, password } => self.change_user(
                id,
                UserChange::Password(password),
                entropy,
            ),
            RequestView::UpdateEmailVerifiedAt { id } => self.change_user(
                id,
                UserChange::Verified(now),
                entropy,
            ),
            RequestView::SetUserOtpSecret { id, secret } => self.change_user(
                id,
                UserChange::Secret(secret),
                entropy,
            ),
            RequestView::CreateSession { user, csrf_token, permanent } => match fresh_id(
                entropy,
            ) {
                Ok(id) => {
                    let (store, r) = self.store.create_session(
                        id,
                        user,
                        csrf_token,
                        permanent,
                        now,
                        self.config.session_ttl,
                    );
                    self.with_store(store).answer(ReplyView::Session(r), entropy.skip(1))
                },
                Err(e) => self.answer(ReplyView::Session(Err(e)), entropy),
            },
            RequestView::ExpireSession { id } => {
                let (store, r) = self.store.expire_session(id, now);
                self.with_store(store).answer(ReplyView::Session(r), entropy)
            },
            RequestView::PurgeSessions { user_id, skip } => self.with_store(
                self.store.purge_sessions(user_id, skip, now),
            ).answer(
                ReplyView::Sessions(
                    Ok(crate::repository::purged(self.store.sessions, user_id, skip, now)),
                ),
                entropy,
            ),
            RequestView::GetValidUserSession { id, csrf } => self.answer(
                ReplyView::UserSession(self.store.valid_user_session(id, csrf, now)),
                entropy,
            ),
            RequestView::SetSession { session } => self.with_cache(
                stored(
                    self.cache,
                    CacheId::Session,
                    session.id,
                    crate::cache::CacheValueView::Session(session),
                    Some(seconds_left(session.expires_at, now)),
                    now,
                ),
            ).answer(ReplyView::Unit(Ok(())), entropy),
            RequestView::GetSessionById { id } => self.answer(
                ReplyView::Value(Ok(lookup(self.cache, CacheId::Session, id, now))),
                entropy,
            ),
            RequestView::DropSessions { ids } => self.with_cache(drop_all(self.cache, ids)).answer(
                ReplyView::Unit(Ok(())),
                entropy,
            ),
            RequestView::SetToken { cache_id, key, value, ttl } => self.with_cache(
                stored(self.cache, cache_id, key, value, ttl, now),
            ).answer(ReplyView::Unit(Ok(())), entropy),
            RequestView::GetToken { cache_id, key } => self.answer(
                ReplyView::Value(Ok(lookup(self.cache, cache_id, key, now))),
                entropy,
            ),
            RequestView::TakeToken { cache_id, key } => self.with_cache(
                removed(self.cache, cache_id, key),
            ).answer(ReplyView::Value(Ok(lookup(self.cache, cache_id, key, now))), entropy),
            RequestView::DeleteToken { cache_id, key } => self.forget(cache_id, key, entropy),
            RequestView::CacheLoginAttempt { user_id } => self.count(
                CacheId::LoginAttempts,
                user_id,
                self.config.ttl_of(CacheId::LoginAttempts),
                now,
                entropy,
            ),
            RequestView::DeleteLoginAttempts { user_id } => self.forget(
                CacheId::LoginAttempts,
                user_id,
                entropy,
            ),
            RequestView::CacheOtpThrottle { user_id } => self.count(
                CacheId::OTPThrottle,
                user_id,
                self.config.ttl_of(CacheId::OTPThrottle),
                now,
                entropy,
            ),
            RequestView::DeleteOtpThrottle { user_id } => self.forget(
                CacheId::OTPThrottle,
                user_id,
                entropy,
            ),
            RequestView::SendMail { kind, username, email, text } => (WorldView {
                outbox: self.outbox.push(MailView { kind, username, email, text }),
                ..self
            }).answer(ReplyView::Unit(Ok(())), entropy),
            RequestView::HashPassword { password } => match fresh_hash(
                password,
                self.config.hash_cost,
                entropy,
            ) {
                Ok(hash) => self.answer(ReplyView::Text(Ok(hash)), entropy.skip(1)),
                Err(e) => self.answer(ReplyView::Text(Err(e)), entropy),
            },
            RequestView::VerifyPassword { password, hash } => self.answer(
                ReplyView::Verdict(Ok(bcrypt_verdict(password, hash))),
                entropy,
            ),
            RequestView::FreshToken => match fresh_id(entropy) {
                Ok(token) => self.answer(ReplyView::Text(Ok(token)), entropy.skip(1)),
                Err(e) => self.answer(ReplyView::Text(Err(e)), entropy),
            },
            RequestView::FreshSecret => match fresh_secret(entropy) {
                Ok(secret) => self.answer(ReplyView::Text(Ok(secret)), entropy.skip(1)),
                Err(e) => self.answer(ReplyView::Text(Err(e)), entropy),
            },
            RequestView::OneTimePassword { secret, step } => self.answer(
                ReplyView::Text(one_time_password(secret, step)),
                entropy,
            ),
            RequestView::OtpUri { secret, account, issuer } => self.answer(
                ReplyView::Text(uri_of(secret, account, issuer)),
                entropy,
            ),
        }
    }

    /// Whether an operation that stands at `state` and `step` comes to its
    /// end within `budget` questions.
    pub open spec fn ends(
        self,
        state: StateView,
        step: StepView,
        now: u64,
        entropy: Seq<Seq<u8>>,
        budget: nat,
    ) -> bool
        decreases budget,
    {
        match step {
            StepView::Done(_) => true,
            StepView::Ask(request) => {
                if budget == 0 {
                    false
                } else {
                    let effect = self.perform(request, now, entropy);
                    let next = advance_spec(self.config, now, state, effect.reply);
                    effect.world.ends(next.0, next.1, now, effect.entropy, (budget - 1) as nat)
                }
            },
        }
    }

    /// The world after an operation that stands at `state` and `step` has
    /// run to its end, and how it ended. At most `budget` questions are
    /// answered.
    pub open spec fn run(
        self,
        state: StateView,
        step: StepView,
        now: u64,
        entropy: Seq<Seq<u8>>,
        budget: nat,
    ) -> (WorldView, Result<OutcomeView, ErrorView>)
        decreases budget,
    {
        match step {
            StepView::Done(r) => (self, r),
            StepView::Ask(request) => {
                if budget == 0 {
                    (self, Err(ErrorView::Empty))
                } else {
                    let effect = self.perform(request, now, entropy);
                    let next = advance_spec(self.config, now, state, effect.reply);
                    effect.world.run(next.0, next.1, now, effect.entropy, (budget - 1) as nat)
                }
            },
        }
    }
}

/// The hash of a password, salted with the first 16 bytes of a random
/// block. A block of fewer bytes gives no salt, and a cost that bcrypt does
/// not allow gives no hash.
pub open spec fn hash_of(password: Seq<char>, cost: u32, block: Seq<u8>) -> Result<
    Seq<char>,
    ErrorView,
> {
    if block.len() >= 16 {
        if cost_allowed(cost) {
            Ok(bcrypt_digest(password, cost, block.take(16)))
        } else {
            Err(crypto_failure("hash"@))
        }
    } else {
        Err(crypto_failure("entropy"@))
    }
}

/// A block of random bytes, as `execute` draws them.
pub fn random_block() -> (r: Vec<u8>)
    ensures
        r@.len() == BLOCK,
{
    generate_secret(BLOCK)
}

/// The one-time-password secret made of a random block: the block in
/// base32.
pub fn text_of_block(block: &Vec<u8>) -> (r: String)
    ensures
        r@ == base32_text(block@),
{
    base32_encode(block)
}

/// The id or token made of a random block: the version-4 UUID of its first
/// 16 bytes. A block of fewer bytes makes none.
pub fn fresh_id_of(block: &Vec<u8>) -> (r: Result<String, Error>)
    ensures
        crate::service::text_result(r) == id_of_block(block@),
{
    if block.len() >= 16 {
        let bytes = prefix(block, 16);
        Ok(uuid_of(&bytes))
    } else {
        Err(crypto_error("entropy"))
    }
}

/// Hashes a password, salted with the first 16 bytes of a random block.
pub fn hash_password(password: &String, cost: u32, block: &Vec<u8>) -> (r: Result<String, Error>)
    ensures
        crate::service::text_result(r) == hash_of(password@, cost, block@),
{
    if block.len() >= 16 {
        let salt = prefix(block, 16);
        match hash_with_salt(password, cost, &salt) {
            Some(hash) => Ok(hash),
            None => Err(crypto_error("hash")),
        }
    } else {
        Err(crypto_error("entropy"))
    }
}

/// Whether a password is the one that a hash was made of.
pub fn password_matches(password: &String, hash: &String) -> (r: bool)
    ensures
        r == bcrypt_verdict(password@, hash@),
{
    verify(password, hash)
}

/// The one-time password of a base32 secret at a time step.
pub fn one_time_code(secret: &String, step: u64) -> (r: Result<String, Error>)
    ensures
        crate::service::text_result(r) == one_time_password(secret@, step),
{
    match base32_decode(secret) {
        Some(bytes) => match otp(&bytes, step) {
            Some(code) => Ok(code),
            None => Err(crypto_error("otp")),
        },
        None => Err(crypto_error("otp")),
    }
}

/// The URI that carries a secret for an account and an issuer.
pub fn otp_uri_for(secret: &String, account: &String, issuer: &String) -> (r: Result<
    String,
    Error,
>)
    ensures
        crate::service::text_result(r) == uri_of(secret@, account@, issuer@),
{
    match otp_uri(OTP_KIND, secret, account, issuer) {
        Some(uri) => Ok(uri),
        None => Err(crypto_error("otp")),
    }
}

fn crypto_error(what: &str) -> (r: Error)
    ensures
        r@ == crypto_failure(what@),
{
    Error::Crypto(String::from_str(what))
}

fn prefix(block: &Vec<u8>, n: usize) -> (r: Vec<u8>)
    requires
        n <= block@.len(),
    ensures
        r@ == block@.take(n as int),
{
    let mut out: Vec<u8> = Vec::new();
    let mut i: usize = 0;
    while i < n
        invariant
            i <= n <= block@.len(),
            out@ == block@.take(i as int),
        decreases n - i,
    {
        out.push(block[i]);
        proof {
            assert(block@.take(i + 1) =~= block@.take(i as int).push(block@[i as int]));
        }
        i = i + 1;
    }
    out
}

/// The service and its collaborators in memory.
pub struct World {
    pub config: Config,
    pub repository: Repository,
    pub cache: Cache,
    /// What was handed to the notifier, oldest first.
    pub outbox: Vec<Mail>,
}

impl View for World {
    type V = WorldView;

    open spec fn view(&self) -> WorldView {
        WorldView {
            config: self.config@,
            store: self.repository@,
            cache: self.cache@,
            outbox: mails_of(self.outbox@),
        }
    }
}

impl World {
    /// The repository holds no id or email twice, and the cache is well
    /// formed.
    pub open spec fn wf(&self) -> bool {
        self.repository@.consistent() && self.cache.wf()
    }

    /// A world without users, sessions, cached values or mail.
    pub fn new(config: Config) -> (r: World)
        ensures
            r.wf(),
            r@.config == config@,
            r@.store.users.len() == 0,
            r@.store.sessions.len() == 0,
            r@.cache == Map::<crate::cache::CacheKey, crate::cache::Slot>::empty(),
            r@.outbox.len() == 0,
    {
        World { config, repository: Repository::new(), cache: Cache::new(), outbox: Vec::new() }
    }

    fn fresh(entropy: &Vec<Vec<u8>>, cursor: &mut usize, secret: bool) -> (r: Result<
        String,
        Error,
    >)
        requires
            *old(cursor) <= entropy@.len(),
        ensures
            *final(cursor) <= entropy@.len(),
            crate::service::text_result(r) == fresh_text(
                blocks_of(entropy@).skip(*old(cursor) as int),
                secret,
            ),
            blocks_of(entropy@).skip(*final(cursor) as int) == (if r is Ok {
                blocks_of(entropy@).skip(*old(cursor) as int).skip(1)
            } else {
                blocks_of(entropy@).skip(*old(cursor) as int)
            }),
    {
        if *cursor < entropy.len() {
            proof {
                assert(blocks_of(entropy@).skip(*cursor as int)[0] == entropy@[*cursor as int]@);
                assert(blocks_of(entropy@).skip(*cursor as int).skip(1) =~= blocks_of(
                    entropy@,
                ).skip(*cursor + 1));
            }
            let text = if secret {
                Ok(text_of_block(&entropy[*cursor]))
            } else {
                fresh_id_of(&entropy[*cursor])
            };
            if text.is_ok() {
                *cursor = *cursor + 1;
            }
            text
        } else {
            Err(crypto_error("entropy"))
        }
    }

    fn hash(&self, password: &String, entropy: &Vec<Vec<u8>>, cursor: &mut usize) -> (r: Result<
        String,
        Error,
    >)
        requires
            *old(cursor) <= entropy@.len(),
        ensures
            *final(cursor) <= entropy@.len(),
            crate::service::text_result(r) == fresh_hash(
                password@,
                self.config.hash_cost,
                blocks_of(entropy@).skip(*old(cursor) as int),
            ),
            blocks_of(entropy@).skip(*final(cursor) as int) == (if r is Ok {
                blocks_of(entropy@).skip(*old(cursor) as int).skip(1)
            } else {
                blocks_of(entropy@).skip(*old(cursor) as int)
            }),
    {
        if *cursor < entropy.len() {
            proof {
                assert(blocks_of(entropy@).skip(*cursor as int)[0] == entropy@[*cursor as int]@);
                assert(blocks_of(entropy@).skip(*cursor as int).skip(1) =~= blocks_of(
                    entropy@,
                ).skip(*cursor + 1));
            }
            let hashed = hash_password(password, self.config.hash_cost, &entropy[*cursor]);
            if hashed.is_ok() {
                *cursor = *cursor + 1;
            }
            hashed
        } else {
            Err(crypto_error("entropy"))
        }
    }

    fn drop_sessions(&mut self, ids: &Vec<String>)
        requires
            old(self).wf(),
        ensures
            final(self).wf(),
            final(self)@ == old(self)@.with_cache(drop_all(old(self)@.cache, texts_of(ids@))),
    {
        let ghost before = self@;
        let mut i: usize = 0;
        while i < ids.len()
            invariant
                i <= ids.len(),
                self.wf(),
                self@ == before.with_cache(drop_all(before.cache, texts_of(ids@).take(i as int))),
            decreases ids.len() - i,
        {
            proof {
                assert(texts_of(ids@).take(i + 1).drop_last() =~= texts_of(ids@).take(i as int));
                assert(texts_of(ids@).take(i + 1).last() == ids@[i as int]@);
            }
            self.cache.delete(CacheId::Session, &ids[i]);
            i = i + 1;
        }
        proof {
            assert(texts_of(ids@).take(ids@.len() as int) =~= texts_of(ids@));
        }
    }

    /// Answers one question at `now`. Random blocks are taken from
    /// `entropy` at `cursor`, which moves past each block that is used.
    #[verifier::rlimit(60)]
    pub fn perform(
        &mut self,
        request: Request,
        now: u64,
        entropy: &Vec<Vec<u8>>,
        cursor: &mut usize,
    ) -> (reply: Reply)
        requires
            old(self).wf(),
            *old(cursor) <= entropy@.len(),
        ensures
            final(self).wf(),
            *final(cursor) <= entropy@.len(),
            final(self)@ == old(self)@.perform(
                request@,
                now,
                blocks_of(entropy@).skip(*old(cursor) as int),
            ).world,
            reply@ == old(self)@.perform(
                request@,
                now,
                blocks_of(entropy@).skip(*old(cursor) as int),
            ).reply,
            blocks_of(entropy@).skip(*final(cursor) as int) == old(self)@.perform(
                request@,
                now,
                blocks_of(entropy@).skip(*old(cursor) as int),
            ).entropy,
    {
        match request {
            Request::GetUserByEmail { email } => Reply::User(
                self.repository.get_user_by_email(&email),
            ),
            Request::GetUserById { id } => Reply::User(self.repository.get_user_by_id(&id)),
            Request::CreateUser { email, username, password } => {
                match Self::fresh(entropy, cursor, false) {
                    Ok(id) => Reply::User(
                        self.repository.create_user(&id, &email, &username, &password),
                    ),
                    Err(e) => Reply::User(Err(e)),
                }
            },
            Request::FreezeUser { id } => Reply::User(self.repository.freeze_user(&id)),
            Request::UpdateUserPassword { id, password } => Reply::User(
                self.repository.update_user_password(&id, &password),
            ),
            Request::UpdateEmailVerifiedAt { id } => Reply::User(
                self.repository.update_email_verified_at(&id, now),
            ),
            Request::SetUserOtpSecret { id, secret } => Reply::User(
                self.repository.set_user_otp_secret(&id, &secret),
            ),
            Request::CreateSession { user, csrf_token, permanent } => {
                match Self::fresh(entropy, cursor, false) {
                    Ok(id) => Reply::Session(
                        self.repository.create_session(
                            &id,
                            &user,
                            &csrf_token,
                            permanent,
                            now,
                            self.config.session_ttl,
                        ),
                    ),
                    Err(e) => Reply::Session(Err(e)),
                }
            },
            Request::ExpireSession { id } => Reply::Session(
                self.repository.expire_session(&id, now),
            ),
            Request::PurgeSessions { user_id, skip } => Reply::Sessions(
                Ok(self.repository.purge_sessions(&user_id, &skip, now)),
            ),
            Request::GetValidUserSession { id, csrf } => Reply::UserSession(
                self.repository.get_valid_user_session(&id, &csrf, now),
            ),
            Request::SetSession { session } => {
                let left = time_left(session.expires_at, now);
                let key = session.id.clone();
                self.cache.set(CacheId::Session, &key, CacheValue::Session(session), Some(left), now);
                Reply::Unit(Ok(()))
            },
            Request::GetSessionById { id } => Reply::Value(
                Ok(self.cache.get(CacheId::Session, &id, now)),
            ),
            Request::DropSessions { ids } => {
                self.drop_sessions(&ids);
                Reply::Unit(Ok(()))
            },
            Request::SetToken { cache_id, key, value, ttl } => {
                self.cache.set(cache_id, &key, value, ttl, now);
                Reply::Unit(Ok(()))
            },
            Request::GetToken { cache_id, key } => Reply::Value(
                Ok(self.cache.get(cache_id, &key, now)),
            ),
            Request::TakeToken { cache_id, key } => Reply::Value(
                Ok(self.cache.take(cache_id, &key, now)),
            ),
            Request::DeleteToken { cache_id, key } => {
                self.cache.delete(cache_id, &key);
                Reply::Unit(Ok(()))
            },
            Request::CacheLoginAttempt { user_id } => Reply::Count(
                Ok(
                    self.cache.increment(
                        CacheId::LoginAttempts,
                        &user_id,
                        self.config.ttl_of(CacheId::LoginAttempts),
                        now,
                    ),
                ),
            ),
            Request::DeleteLoginAttempts { user_id } => {
                self.cache.delete(CacheId::LoginAttempts, &user_id);
                Reply::Unit(Ok(()))
            },
            Request::CacheOtpThrottle { user_id } => Reply::Count(
                Ok(
                    self.cache.increment(
                        CacheId::OTPThrottle,
                        &user_id,
                        self.config.ttl_of(CacheId::OTPThrottle),
                        now,
                    ),
                ),
            ),
            Request::DeleteOtpThrottle { user_id } => {
                self.cache.delete(CacheId::OTPThrottle, &user_id);
                Reply::Unit(Ok(()))
            },
            Request::SendMail { kind, username, email, text } => {
                let ghost before = self@;
                let mail = Mail { kind, username, email, text };
                self.outbox.push(mail);
                proof {
                    assert(self@.outbox =~= before.outbox.push(
                        MailView { kind, username: username@, email: email@, text: text@ },
                    ));
                }
                Reply::Unit(Ok(()))
            },
            Request::HashPassword { password } => Reply::Text(self.hash(&password, entropy, cursor)),
            Request::VerifyPassword { password, hash } => Reply::Verdict(
                Ok(password_matches(&password, &hash)),
            ),
            Request::FreshToken => Reply::Text(Self::fresh(entropy, cursor, false)),
            Request::FreshSecret => Reply::Text(Self::fresh(entropy, cursor, true)),
            Request::OneTimePassword { secret, step } => Reply::Text(
                one_time_code(&secret, step),
            ),
            Request::OtpUri { secret, account, issuer } => Reply::Text(
                otp_uri_for(&secret, &account, &issuer),
            ),
        }
    }

    /// Drives an operation from its first step to its end, at `now`, with
    /// the random blocks of `entropy`, used in order.
    pub fn run(&mut self, start: (State, Step), now: u64, entropy: &Vec<Vec<u8>>) -> (r: Result<
        Outcome,
        Error,
    >)
        requires
            old(self).wf(),
        ensures
            final(self).wf(),
            final(self)@ == old(self)@.run(
                start.0@,
                start.1@,
                now,
                blocks_of(entropy@),
                STEPS as nat,
            ).0,
            outcome_result(r) == old(self)@.run(
                start.0@,
                start.1@,
                now,
                blocks_of(entropy@),
                STEPS as nat,
            ).1,
    {
        let ghost first = (start.0@, start.1@);
        let ghost goal = self@.run(first.0, first.1, now, blocks_of(entropy@), STEPS as nat);
        let (state, step) = start;
        let mut state = state;
        let mut step = step;
        let mut budget: usize = STEPS;
        let mut cursor: usize = 0;
        proof {
            assert(blocks_of(entropy@).skip(0) =~= blocks_of(entropy@));
        }
        loop
            invariant
                self.wf(),
                cursor <= entropy@.len(),
                first == (start.0@, start.1@),
                goal == old(self)@.run(first.0, first.1, now, blocks_of(entropy@), STEPS as nat),
                self@.run(
                    state@,
                    step@,
                    now,
                    blocks_of(entropy@).skip(cursor as int),
                    budget as nat,
                ) == goal,
            decreases budget,
        {
            match step {
                Step::Done(r) => {
                    return r;
                },
                Step::Ask(request) => {
                    if budget == 0 {
                        return Err(Error::Empty);
                    }
                    let ghost config = self@.config;
                    let reply = self.perform(request, now, entropy, &mut cursor);
                    assert(self@.config == config);
                    let next = advance(&self.config, now, state, reply);
                    state = next.0;
                    step = next.1;
                    budget = budget - 1;
                },
            }
        }
    }

    /// Drives an operation to its end at `now`, with random blocks drawn
    /// for it: as many blocks as a run answers questions at most, each of
    /// `BLOCK` random bytes, so that no question of the run goes without a
    /// block and the operation does not end for want of one.
    pub fn execute(&mut self, start: (State, Step), now: u64) -> (r: Result<Outcome, Error>)
        requires
            old(self).wf(),
        ensures
            final(self).wf(),
            exists|entropy: Seq<Seq<u8>>|
                drawn(entropy) && (final(self)@, outcome_result(r)) == #[trigger] old(self)@.run(
                    start.0@,
                    start.1@,
                    now,
                    entropy,
                    STEPS as nat,
                ),
            !crate::supply::ended_out_of_blocks(start.1@) ==> !crate::supply::short_of_blocks(
                outcome_result(r),
            ),
    {
        let mut entropy: Vec<Vec<u8>> = Vec::new();
        let mut i: usize = 0;
        while i < STEPS
            invariant
                i <= STEPS,
                entropy@.len() == i,
                forall|j: int| 0 <= j < i ==> (#[trigger] entropy@[j])@.len() == BLOCK,
            decreases STEPS - i,
        {
            entropy.push(random_block());
            i = i + 1;
        }
        proof {
            assert(drawn(blocks_of(entropy@)));
            if !crate::supply::ended_out_of_blocks(start.1@) {
                crate::supply::drawn_blocks_are_enough(
                    self@,
                    start.0@,
                    start.1@,
                    now,
                    blocks_of(entropy@),
                );
            }
        }
        self.run(start, now, &entropy)
    }
}

} // verus!
