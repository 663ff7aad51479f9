//! Password hashing and random tokens.
use vstd::prelude::*;
use argon2::password_hash::rand_core::OsRng;
use argon2::password_hash::{PasswordHash, SaltString};
use argon2::{Argon2, PasswordHasher, PasswordVerifier};
use rand::distr::{Alphanumeric, SampleString};
use crate::text::utf8_len;

verus! {

/// An ASCII letter or digit.
pub open spec fn is_ascii_alphanumeric(c: char) -> bool {
    ('a' <= c && c <= 'z') || ('A' <= c && c <= 'Z') || ('0' <= c && c <= '9')
}

/// A session token: 256 ASCII letters and digits.
pub open spec fn is_session_token(t: Seq<char>) -> bool {
    &&& t.len() == 256
    &&& forall|i: int| 0 <= i < t.len() ==> is_ascii_alphanumeric(#[trigger] t[i])
}

/// Display text of the error with which `password_hash::PasswordHash::new` refuses
/// `hash`, or `None` where it parses `hash` as a PHC string.
pub uninterp spec fn phc_parse_error(hash: Seq<char>) -> Option<Seq<char>>;

/// Whether `Argon2::default().verify_password` accepts the UTF-8 bytes of `password`
/// against the PHC string `hash`.
pub uninterp spec fn argon2_accepts(password: Seq<char>, hash: Seq<char>) -> bool;

/// Outcome of checking a password against a stored hash.
#[derive(Debug, PartialEq)]
pub enum PasswordCheck {
    /// The stored hash is no PHC string; the text says why.
    Malformed(String),
    Mismatch,
    Match,
}

/// Calls `rand::distr::Alphanumeric.sample_string` with the thread-local generator.
/// Claimed: the result has `len` characters, each an ASCII letter or digit (each
/// sampled byte is one of `A-Z`, `a-z`, `0-9`). Which ones is left open: they are random.
#[verifier::external_body]
pub(crate) fn sample_alphanumeric(len: usize) -> (r: String)
    ensures
        r@.len() == len,
        forall|i: int| 0 <= i < r@.len() ==> is_ascii_alphanumeric(#[trigger] r@[i]),
{
    Alphanumeric.sample_string(&mut rand::rng(), len)
}

/// Calls `SaltString::generate` with `OsRng` and then
/// `Argon2::default().hash_password`, and renders the hash as a PHC string.
/// Claimed: that string parses as a PHC string, and `verify_password` accepts
/// `password` against it (verification recomputes the hash with the salt and
/// parameters the string holds). The salt is random, so the string itself is left open.
/// `hash_password` fails only for passwords over `u32::MAX` bytes, which `requires` leaves out.
#[verifier::external_body]
pub(crate) fn salt_and_hash_password(password: &str) -> (r: String)
    requires
        utf8_len(password@) <= 0xFFFF_FFFF,
    ensures
        phc_parse_error(r@) is None,
        argon2_accepts(password@, r@),
{
    let salt = SaltString::generate(&mut OsRng);
    Argon2::default().hash_password(password.as_bytes(), &salt).unwrap().to_string()
}

/// Calls `PasswordHash::new` on `hash` and, where it parses, `Argon2::default().verify_password`
/// with the bytes of `password`. Claimed: `Malformed` exactly where the parse fails,
/// carrying the error's display text; otherwise `Match` exactly where verification succeeds.
#[verifier::external_body]
pub(crate) fn check_password(password: &str, hash: &str) -> (r: PasswordCheck)
    ensures
        match phc_parse_error(hash@) {
            Some(e) => r matches PasswordCheck::Malformed(m) && m@ == e,
            None => if argon2_accepts(password@, hash@) {
                r is Match
            } else {
                r is Mismatch
            },
        },
{
    match PasswordHash::new(hash) {
        Err(e) => PasswordCheck::Malformed(e.to_string()),
        Ok(parsed) => match Argon2::default().verify_password(password.as_bytes(), &parsed) {
            Ok(()) => PasswordCheck::Match,
            Err(_) => PasswordCheck::Mismatch,
        },
    }
}

} // verus!
