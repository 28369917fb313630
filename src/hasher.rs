//! Password hashing and verification with argon2 and self-describing PHC strings.

use argon2::password_hash::rand_core::OsRng;
use argon2::password_hash::{PasswordHash, PasswordHasher, PasswordVerifier, Salt, SaltString};
use argon2::Argon2;
use vstd::prelude::*;

verus! {

/// What can go wrong while hashing or checking a secret.
#[derive(Debug, Clone, Copy, PartialEq, Eq, Structural)]
pub enum HashError {
    /// The stored string is not a valid PHC string (corrupted data).
    MalformedHash,
    /// The stored string parses but the verifier cannot use it
    /// (unknown algorithm, bad parameters, missing salt).
    Unverifiable,
    /// Hashing itself failed.
    HashingFailed,
}

/// Whether `PasswordHash::new` accepts `encoded` as a PHC string.
pub uninterp spec fn phc_parses(encoded: Seq<char>) -> bool;

/// What `Argon2::default().verify_password` says of `secret` against the
/// parsed `encoded`: `Some(true)` accepted, `Some(false)` wrong secret,
/// `None` any other error.
pub uninterp spec fn argon2_verdict(secret: Seq<char>, encoded: Seq<char>) -> Option<bool>;

/// The outcome of checking `secret` against the stored `encoded` hash.
pub open spec fn verify_outcome(secret: Seq<char>, encoded: Seq<char>) -> Result<bool, HashError> {
    if !phc_parses(encoded) {
        Err(HashError::MalformedHash)
    } else {
        match argon2_verdict(secret, encoded) {
            Some(ok) => Ok(ok),
            None => Err(HashError::Unverifiable),
        }
    }
}

pub open spec fn is_b64_char(c: char) -> bool {
    ('A' <= c && c <= 'Z') || ('a' <= c && c <= 'z') || ('0' <= c && c <= '9') || c == '+' || c == '/'
}

/// The shape of sixteen bytes in unpadded B64: 22 characters, the last of
/// which carries four zero bits.
pub open spec fn salt_shape(s: Seq<char>) -> bool {
    &&& s.len() == 22
    &&& forall|i: int| 0 <= i < 22 ==> is_b64_char(#[trigger] s[i])
    &&& (s[21] == 'A' || s[21] == 'Q' || s[21] == 'g' || s[21] == 'w')
}

/// The longest password, in characters, whose UTF-8 encoding stays within
/// argon2's limit of `0xFFFF_FFFF` bytes.
pub const MAX_PASSWORD_CHARS: u64 = 0x3FFF_FFFF;

/// Relies on `SaltString::generate` with the operating system's random
/// source: sixteen random bytes, B64-encoded without padding.
#[verifier::external_body]
fn fresh_salt() -> (r: String)
    ensures
        salt_shape(r@),
{
    SaltString::generate(&mut OsRng).as_str().to_string()
}

/// Relies on `Salt::from_b64` and `Argon2::hash_password` with default
/// parameters: the PHC string it produces embeds algorithm, version,
/// parameters, salt and digest, so the same secret verifies against it.
/// It fails only on a salt it cannot decode or shorter than eight bytes, or
/// on a password of more than `0xFFFF_FFFF` bytes.
#[verifier::external_body]
fn argon2_hash(secret: &str, salt: &str) -> (r: Option<String>)
    ensures
        r matches Some(h) ==> phc_parses(h@) && argon2_verdict(secret@, h@) == Some(true),
        salt_shape(salt@) && secret@.len() <= MAX_PASSWORD_CHARS ==> r is Some,
{
    let salt = match Salt::from_b64(salt) {
        Ok(s) => s,
        Err(_) => return None,
    };
    match Argon2::default().hash_password(secret.as_bytes(), salt) {
        Ok(h) => Some(h.to_string()),
        Err(_) => None,
    }
}

/// Relies on `PasswordHash::new` to parse `encoded` and on
/// `Argon2::default().verify_password` to check `secret` against it;
/// `Error::Password` is the verifier's answer for a wrong secret.
/// An empty string is never a PHC string.
#[verifier::external_body]
fn argon2_check(secret: &str, encoded: &str) -> (r: Option<Option<bool>>)
    ensures
        r is None <==> !phc_parses(encoded@),
        r matches Some(v) ==> v == argon2_verdict(secret@, encoded@),
        encoded@.len() == 0 ==> r is None,
{
    let parsed = match PasswordHash::new(encoded) {
        Ok(p) => p,
        Err(_) => return None,
    };
    match Argon2::default().verify_password(secret.as_bytes(), &parsed) {
        Ok(()) => Some(Some(true)),
        Err(argon2::password_hash::Error::Password) => Some(Some(false)),
        Err(_) => Some(None),
    }
}

/// Hashes `password` with a fresh random salt into a self-describing PHC
/// string. Whatever it returns verifies against `password`, and it succeeds
/// on every password within argon2's length limit.
pub fn hash_password(password: &str) -> (r: Result<String, HashError>)
    ensures
        password@.len() <= MAX_PASSWORD_CHARS ==> r is Ok,
        r matches Ok(h) ==> verify_outcome(password@, h@) == Ok::<bool, HashError>(true),
        r matches Err(e) ==> e == HashError::HashingFailed,
{
    let salt = fresh_salt();
    match argon2_hash(password, salt.as_str()) {
        Some(h) => Ok(h),
        None => Err(HashError::HashingFailed),
    }
}

/// Checks `password` against the stored PHC string `password_hash`:
/// `Ok(true)` on a match, `Ok(false)` on a wrong secret, `MalformedHash`
/// when the stored string cannot be parsed.
pub fn verify_password(password: &str, password_hash: &str) -> (r: Result<bool, HashError>)
    ensures
        r == verify_outcome(password@, password_hash@),
{
    match argon2_check(password, password_hash) {
        None => Err(HashError::MalformedHash),
        Some(Some(ok)) => Ok(ok),
        Some(None) => Err(HashError::Unverifiable),
    }
}

} // verus!
