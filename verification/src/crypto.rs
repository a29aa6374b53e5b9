//! What only a cryptographic library can compute: password hashes, one-time
//! passwords, and the encodings around them. Each result has a name here,
//! and the functions below are believed to return what their names say.

use vstd::prelude::*;

verus! {

/// The bcrypt hash of a password at a cost that bcrypt allows, with a salt
/// of 16 bytes, in the modular crypt format.
pub uninterp spec fn bcrypt_digest(password: Seq<char>, cost: u32, salt: Seq<u8>) -> Seq<char>;

/// Whether bcrypt allows a cost.
pub open spec fn cost_allowed(cost: u32) -> bool {
    4 <= cost <= 31
}

/// Whether a kind of one-time password is one that a URI can be made for.
pub open spec fn kind_known(kind: Seq<char>) -> bool {
    kind == "totp"@ || kind == "hotp"@
}

/// Whether a password is the one that a bcrypt hash was made of. A text that
/// is no bcrypt hash matches no password.
pub uninterp spec fn bcrypt_verdict(password: Seq<char>, hash: Seq<char>) -> bool;

/// The six-digit HMAC-SHA-1 one-time password of a secret at a counter.
pub uninterp spec fn otp_code(secret: Seq<u8>, counter: u64) -> Seq<char>;

/// Bytes in padded base32.
pub uninterp spec fn base32_text(bytes: Seq<u8>) -> Seq<char>;

/// The bytes that a padded base32 text stands for; nothing where the text is
/// not base32.
pub uninterp spec fn base32_bytes(text: Seq<char>) -> Option<Seq<u8>>;

/// The `otpauth` URI of a known kind of one-time password for a secret, a
/// label and an issuer.
pub uninterp spec fn otp_uri_text(
    kind: Seq<char>,
    secret: Seq<char>,
    label: Seq<char>,
    issuer: Seq<char>,
) -> Seq<char>;

/// The version-4 UUID that 16 random bytes make, hyphenated and in lower
/// case.
pub uninterp spec fn uuid_text(bytes: Seq<u8>) -> Seq<char>;

/// Optional bytes as plain values.
pub open spec fn bytes_opt(o: Option<Vec<u8>>) -> Option<Seq<u8>> {
    match o {
        Some(b) => Some(b@),
        None => None,
    }
}

/// `bcrypt::hash_with_salt`, formatted by `HashParts::to_string`: the hash
/// depends on the password, the cost and the salt alone. The call fails
/// exactly where the cost is outside bcrypt's range of 4 to 31.
#[verifier::external_body]
pub(crate) fn hash_with_salt(password: &String, cost: u32, salt: &Vec<u8>) -> (r: Option<String>)
    requires
        salt@.len() == 16,
    ensures
        r is Some <==> cost_allowed(cost),
        r matches Some(hash) ==> hash@ == bcrypt_digest(password@, cost, salt@),
{
    let mut block = [0u8; 16];
    block.copy_from_slice(salt);
    bcrypt::hash_with_salt(password, cost, block).ok().map(|parts| parts.to_string())
}

/// `bcrypt::verify`: true where the call says that the password matches, and
/// false where it says that it does not or that the hash cannot be read.
#[verifier::external_body]
pub(crate) fn verify(password: &String, hash: &String) -> (r: bool)
    ensures
        r == bcrypt_verdict(password@, hash@),
{
    bcrypt::verify(password, hash).unwrap_or(false)
}

/// `thotp::otp`: the one-time password depends on the secret and the counter
/// alone. The call never fails: it can fail only where the HMAC takes no
/// key, and HMAC takes a key of any length.
#[verifier::external_body]
pub(crate) fn otp(secret: &Vec<u8>, counter: u64) -> (r: Option<String>)
    ensures
        r is Some,
        r matches Some(code) ==> code@ == otp_code(secret@, counter),
{
    thotp::otp(secret, counter).ok()
}

/// `thotp::encoding::encode` with `data_encoding::BASE32`.
#[verifier::external_body]
pub(crate) fn base32_encode(bytes: &Vec<u8>) -> (r: String)
    ensures
        r@ == base32_text(bytes@),
{
    thotp::encoding::encode(bytes, data_encoding::BASE32)
}

/// `thotp::encoding::decode` with `data_encoding::BASE32`.
#[verifier::external_body]
pub(crate) fn base32_decode(text: &String) -> (r: Option<Vec<u8>>)
    ensures
        bytes_opt(r) == base32_bytes(text@),
{
    thotp::encoding::decode(text, data_encoding::BASE32).ok()
}

/// `thotp::qr::otp_uri` without a counter: the URI depends on the kind, the
/// secret, the label and the issuer alone. The call fails exactly where the
/// kind is neither `totp` nor `hotp`.
#[verifier::external_body]
pub(crate) fn otp_uri(kind: &str, secret: &String, label: &String, issuer: &String) -> (r: Option<
    String,
>)
    ensures
        r is Some <==> kind_known(kind@),
        r matches Some(uri) ==> uri@ == otp_uri_text(kind@, secret@, label@, issuer@),
{
    thotp::qr::otp_uri(kind, secret, label, issuer, None).ok()
}

/// `uuid::Builder::from_random_bytes`, then `into_uuid` and the `Display` of
/// `Uuid`: the UUID depends on the 16 bytes alone.
#[verifier::external_body]
pub(crate) fn uuid_of(bytes: &Vec<u8>) -> (r: String)
    requires
        bytes@.len() == 16,
    ensures
        r@ == uuid_text(bytes@),
{
    let mut block = [0u8; 16];
    block.copy_from_slice(bytes);
    uuid::Builder::from_random_bytes(block).into_uuid().to_string()
}

/// `thotp::generate_secret`: as many random bytes as asked for. The call
/// panics only where the operating system gives no randomness, whatever is
/// asked for.
#[verifier::external_body]
pub(crate) fn generate_secret(size: usize) -> (r: Vec<u8>)
    ensures
        r@.len() == size,
{
    thotp::generate_secret(size)
}

} // verus!
