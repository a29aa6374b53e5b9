//! The session cookie: which attributes it carries and how long it lives.
//! Building the cookie is decided here on plain values; the jar that holds
//! cookies is the `cookie` crate's.

use cookie::{CookieJar, SignedJar};
use vstd::prelude::*;
use vstd::string::StringSliceAdditionalSpecFns;

verus! {

#[verifier::external_type_specification]
#[verifier::external_body]
pub struct ExCookieJar(CookieJar);

#[verifier::external_type_specification]
#[verifier::external_body]
#[verifier::reject_recursive_types(J)]
pub struct ExSignedJar<J>(SignedJar<J>);

/// The original cookies of a jar, each under its name and as plain values.
pub uninterp spec fn jar_originals(jar: CookieJar) -> Map<Seq<char>, CookieView>;

/// The names of the cookies that a jar holds as changes: what was added to
/// it or removed from it since it was made of its original cookies.
pub uninterp spec fn jar_changes(jar: CookieJar) -> Set<Seq<char>>;

/// The original cookies of the jar that a signed jar stands before, each
/// under its name and as it is stored there.
pub uninterp spec fn signed_originals(jar: SignedJar<&CookieJar>) -> Map<Seq<char>, CookieView>;

/// The key that a signed jar signs and verifies with.
pub uninterp spec fn signing_key(jar: SignedJar<&CookieJar>) -> Seq<u8>;

/// The name of the cookie that carries the session id.
pub const S_ID: &'static str = "S_ID";

/// Seconds a cookie lives unless it is made to expire or to stay.
pub const MAX_AGE: i64 = 86400;

/// The cross-site policy of a cookie.
#[derive(Clone, Copy, Debug, PartialEq, Eq, Structural)]
pub enum SameSite {
    Strict,
    Lax,
    Unrestricted,
}

/// A cookie as plain values.
#[derive(Debug, PartialEq, Eq)]
pub struct Cookie {
    pub name: String,
    pub value: String,
    pub path: String,
    pub domain: String,
    /// Whole seconds the browser keeps the cookie.
    pub max_age: i64,
    /// The part of a second beyond the whole seconds, in nanoseconds.
    pub max_age_nanos: i32,
    pub same_site: SameSite,
    pub http_only: bool,
    pub secure: bool,
}

pub struct CookieView {
    pub name: Seq<char>,
    pub value: Seq<char>,
    pub path: Seq<char>,
    pub domain: Seq<char>,
    pub max_age: i64,
    pub max_age_nanos: i32,
    pub same_site: SameSite,
    pub http_only: bool,
    pub secure: bool,
}

impl CookieView {
    /// Whether the age is written as a duration writes it: the part of a
    /// second is less than a second and does not run against the seconds.
    pub open spec fn plain_age(self) -> bool {
        0 <= self.max_age_nanos < 1_000_000_000 && (self.max_age >= 0 || self.max_age_nanos == 0)
    }
}

impl View for Cookie {
    type V = CookieView;

    open spec fn view(&self) -> CookieView {
        CookieView {
            name: self.name@,
            value: self.value@,
            path: self.path@,
            domain: self.domain@,
            max_age: self.max_age,
            max_age_nanos: self.max_age_nanos,
            same_site: self.same_site,
            http_only: self.http_only,
            secure: self.secure,
        }
    }
}

/// An age of whole seconds and a part of a second in nanoseconds.
pub struct Age {
    pub seconds: i64,
    pub nanoseconds: i32,
}

/// The cookie named `name` that holds `value` for an age: for the whole
/// site, kept from scripts, sent over TLS only and not with requests that
/// another site makes, except top-level navigation.
pub open spec fn guarded_cookie(name: Seq<char>, value: Seq<char>, age: Age) -> CookieView {
    CookieView {
        name,
        value,
        path: "/"@,
        domain: ""@,
        max_age: age.seconds,
        max_age_nanos: age.nanoseconds,
        same_site: SameSite::Lax,
        http_only: true,
        secure: true,
    }
}

/// How long a session cookie lives: not at all when it is to expire, the
/// longest age there is when the session is permanent, a day otherwise.
pub open spec fn session_max_age(expire: bool, permanent: bool) -> Age {
    if expire {
        Age { seconds: 0, nanoseconds: 0 }
    } else if permanent {
        Age { seconds: i64::MAX, nanoseconds: 999_999_999 }
    } else {
        Age { seconds: MAX_AGE, nanoseconds: 0 }
    }
}

/// How long any other cookie lives: not at all when it is to expire, a day
/// otherwise.
pub open spec fn plain_max_age(expire: bool) -> Age {
    if expire {
        Age { seconds: 0, nanoseconds: 0 }
    } else {
        Age { seconds: MAX_AGE, nanoseconds: 0 }
    }
}

fn guarded(name: &str, value: &str, max_age: i64, max_age_nanos: i32) -> (r: Cookie)
    ensures
        r@ == guarded_cookie(name@, value@, (Age { seconds: max_age, nanoseconds: max_age_nanos })),
{
    Cookie {
        name: String::from_str(name),
        value: String::from_str(value),
        path: String::from_str("/"),
        domain: String::from_str(""),
        max_age,
        max_age_nanos,
        same_site: SameSite::Lax,
        http_only: true,
        secure: true,
    }
}

/// Creates a cookie with the given session id.
pub fn create_session(session_id: &str, expire: bool, permanent: bool) -> (r: Cookie)
    ensures
        r@ == guarded_cookie(S_ID@, session_id@, session_max_age(expire, permanent)),
{
    if expire {
        guarded(S_ID, session_id, 0, 0)
    } else if permanent {
        guarded(S_ID, session_id, i64::MAX, 999_999_999)
    } else {
        guarded(S_ID, session_id, MAX_AGE, 0)
    }
}

/// Creates a cookie named `key` that holds `value`, a serialized text.
pub fn create(key: &str, value: &str, expire: bool) -> (r: Cookie)
    ensures
        r@ == guarded_cookie(key@, value@, plain_max_age(expire)),
{
    guarded(key, value, if expire { 0 } else { MAX_AGE }, 0)
}

/// The content of a jar without cookies.
pub open spec fn no_cookies() -> Map<Seq<char>, CookieView> {
    Map::empty()
}

/// The content of a jar whose one original cookie is `cookie`.
pub open spec fn one_cookie(cookie: CookieView) -> Map<Seq<char>, CookieView> {
    no_cookies().insert(cookie.name, cookie)
}

/// No changes.
pub open spec fn no_changes() -> Set<Seq<char>> {
    Set::empty()
}

/// `CookieJar::new`: a jar without cookies and without changes.
#[verifier::external_body]
fn empty_jar() -> (r: CookieJar)
    ensures
        jar_originals(r) == no_cookies(),
        jar_changes(r) == no_changes(),
{
    CookieJar::new()
}

/// `CookieJar::add_original`, on the `cookie` crate's cookie with the
/// attributes of `cookie`: the jar then holds it as an original cookie under
/// its name, in place of any original cookie with that name, and its other
/// original cookies and its changes are as before. The age is made by
/// `Duration::new`, which keeps seconds and nanoseconds as they are where
/// the age is plain, and panics where the nanoseconds carry the seconds
/// over the end.
#[verifier::external_body]
fn add_original(jar: &mut CookieJar, cookie: &Cookie)
    requires
        cookie@.plain_age(),
    ensures
        jar_originals(*final(jar)) == jar_originals(*old(jar)).insert(cookie.name@, cookie@),
        jar_changes(*final(jar)) == jar_changes(*old(jar)),
{
    let same_site = match cookie.same_site {
        SameSite::Strict => cookie::SameSite::Strict,
        SameSite::Lax => cookie::SameSite::Lax,
        SameSite::Unrestricted => cookie::SameSite::None,
    };
    let built = cookie::Cookie::build(cookie.name.clone(), cookie.value.clone())
        .path(cookie.path.clone())
        .domain(cookie.domain.clone())
        .max_age(cookie::time::Duration::new(cookie.max_age, cookie.max_age_nanos))
        .same_site(same_site)
        .http_only(cookie.http_only)
        .secure(cookie.secure)
        .finish();
    jar.add_original(built);
}

/// The part of a secret that cookies are signed with: its first 32 bytes.
pub open spec fn signing_part(secret: Seq<u8>) -> Seq<u8> {
    secret.subrange(0, 32)
}

/// `CookieJar::signed` with the key that `Key::from` makes of the secret's
/// bytes. `Key::from` panics on fewer than 64 bytes and keeps the first 64;
/// the signed jar is made of the jar itself and of the signing half of the
/// key, which is its first 32 bytes.
#[verifier::external_body]
fn signed_with<'a>(jar: &'a CookieJar, secret: &str) -> (r: SignedJar<&'a CookieJar>)
    requires
        secret.len() >= 64,
    ensures
        signed_originals(r) == jar_originals(*jar),
        signing_key(r) == signing_part(secret.spec_bytes()),
{
    jar.signed(&cookie::Key::from(secret.as_bytes()))
}

/// The jar with one original cookie, `cookie`, and no changes.
fn jar_of(cookie: &Cookie) -> (r: CookieJar)
    requires
        cookie@.plain_age(),
    ensures
        jar_originals(r) == one_cookie(cookie@),
        jar_changes(r) == no_changes(),
{
    let mut jar = empty_jar();
    add_original(&mut jar, cookie);
    jar
}

/// Creates a session cookie in a jar that can be signed with a private key.
/// The jar holds the cookie as its one original cookie and nothing to send.
pub fn create_session_in_jar(session_id: &str, expire: bool, permanent: bool) -> (r: CookieJar)
    ensures
        jar_originals(r) == one_cookie(
            guarded_cookie(S_ID@, session_id@, session_max_age(expire, permanent)),
        ),
        jar_changes(r) == no_changes(),
{
    let cookie = create_session(session_id, expire, permanent);
    jar_of(&cookie)
}

/// Creates a cookie named `key` that holds `value`, a serialized text, in a
/// jar.
pub fn create_in_jar(key: &str, value: &str, expire: bool) -> (r: CookieJar)
    ensures
        jar_originals(r) == one_cookie(guarded_cookie(key@, value@, plain_max_age(expire))),
        jar_changes(r) == no_changes(),
{
    let cookie = create(key, value, expire);
    jar_of(&cookie)
}

/// The jar seen through the signing key made of `secret`: the signed jar
/// stands before this very jar, and signs and verifies with the first 32
/// bytes of the secret. The secret must be at least 64 bytes long.
pub fn sign_jar<'a>(jar: &'a CookieJar, secret: &str) -> (r: SignedJar<&'a CookieJar>)
    requires
        secret.len() >= 64,
    ensures
        signed_originals(r) == jar_originals(*jar),
        signing_key(r) == signing_part(secret.spec_bytes()),
{
    signed_with(jar, secret)
}

} // verus!
