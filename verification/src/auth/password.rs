//! Argon2id password hashing.

use argon2::password_hash::{PasswordHash, PasswordHasher, PasswordVerifier, SaltString};
use argon2::Argon2;
use rand_core::OsRng;
use vstd::prelude::*;

use crate::error::ApiError;

verus! {

/// What Argon2 makes of `password` against the PHC string `phc`: `None` when
/// `phc` is not a well-formed PHC string, otherwise whether the password
/// matches it.
pub uninterp spec fn argon2_verdict(password: Seq<char>, phc: Seq<char>) -> Option<bool>;

/// Parses `stored_hash` with `PasswordHash::new` (the conversion
/// `PasswordVerifier::verify_password` takes) and, when it parses, checks the
/// password with `Argon2::default().verify_password`. States only that the
/// result is `argon2_verdict` of the two texts: the outcome depends on them
/// alone, and how Argon2 decides is not restated here.
#[verifier::external_body]
fn argon2_verify(password: &str, stored_hash: &str) -> (verdict: Option<bool>)
    ensures
        verdict == argon2_verdict(password@, stored_hash@),
{
    match PasswordHash::new(stored_hash) {
        Ok(parsed) => Some(Argon2::default().verify_password(password.as_bytes(), &parsed).is_ok()),
        Err(_) => None,
    }
}

/// Hashes with `Argon2::default().hash_password` under a salt drawn by
/// `SaltString::generate` from the operating system's generator, and renders
/// the PHC string; an error is rendered as its message. The salt is random,
/// so the hash itself is not stated; what is stated is the crate's documented
/// round trip: a hash it produced verifies against the password it was made
/// from. With the default parameters and a generated salt, every check the
/// crate makes on the way (salt and output lengths, parameter rendering)
/// passes, and the password is refused only beyond `MAX_PWD_LEN`
/// (`0xFFFF_FFFF`) bytes; a password of at most a quarter of that many
/// characters is within it, and is stated to hash.
#[verifier::external_body]
fn argon2_hash(password: &str) -> (hashed: Result<String, String>)
    ensures
        hashed matches Ok(phc) ==> argon2_verdict(password@, phc@) == Some(true),
        password@.len() <= 0x3FFF_FFFF ==> hashed is Ok,
{
    let salt = SaltString::generate(&mut OsRng);
    Argon2::default()
        .hash_password(password.as_bytes(), &salt)
        .map(|hash| hash.to_string())
        .map_err(|err| err.to_string())
}

/// Hashes a password with Argon2id. This is intentionally slow, so callers in
/// request handlers must run it on the blocking pool. Any password of up to
/// `0x3FFF_FFFF` characters hashes.
pub fn hash_password(password: &str) -> (hashed: Result<String, ApiError>)
    ensures
        hashed matches Ok(phc) ==> argon2_verdict(password@, phc@) == Some(true),
        password@.len() <= 0x3FFF_FFFF ==> hashed is Ok,
        hashed matches Err(err) ==> err is Internal,
{
    match argon2_hash(password) {
        Ok(phc) => Ok(phc),
        Err(message) => Err(
            ApiError::Internal(String::from_str("failed to hash password: ").concat(message.as_str())),
        ),
    }
}

/// Verifies a password against a stored PHC hash. A malformed stored hash is
/// treated as a failed match rather than an error.
pub fn verify_password(password: &str, stored_hash: &str) -> (matched: bool)
    ensures
        matched == (argon2_verdict(password@, stored_hash@) == Some(true)),
{
    match argon2_verify(password, stored_hash) {
        Some(matched) => matched,
        None => false,
    }
}

/// The fixed secret behind the decoy hash; no account is ever given it.
pub open spec fn decoy_secret() -> Seq<char> {
    "decoy-password-never-matches"@
}

/// A valid Argon2 hash of a fixed secret, used to spend the same CPU time on
/// sign-in attempts for accounts that do not exist as for ones that do. It is
/// slow to make, so the server makes it once and keeps it. The secret is
/// short enough that hashing it always succeeds.
pub fn decoy_hash() -> (phc: String)
    ensures
        argon2_verdict(decoy_secret(), phc@) == Some(true),
{
    proof {
        reveal_strlit("decoy-password-never-matches");
    }
    match hash_password("decoy-password-never-matches") {
        Ok(phc) => phc,
        Err(_) => String::new(),
    }
}

} // verus!
