//! Password hashing and verification, delegated to the argon2 crate.
//!
//! Whether a password matches a PHC-format hash string is a pure
//! function of the two texts (the salt and parameters live inside the
//! hash string); `password_verifies` names that function. Hashing draws
//! a random salt, so nothing relates two hashes of one password; all
//! that is stated of a fresh hash is that it verifies against the
//! password it was computed from.

use vstd::prelude::*;
use argon2::{Argon2, PasswordHasher, PasswordVerifier};

verus! {

/// Whether `password` matches the PHC-format `hash`, as argon2 decides
/// it. A text that does not parse as a PHC string matches nothing.
pub uninterp spec fn password_verifies(password: Seq<char>, hash: Seq<char>) -> bool;

/// Relies on argon2::Argon2::verify_password (the `PasswordVerifier<str>`
/// impl, which parses the PHC string and recomputes the hash with the
/// salt and parameters stored in it): the outcome depends on the
/// password and the hash text alone, and a malformed hash text verifies
/// nothing.
#[verifier::external_body]
pub fn verify_password(password: &str, hash: &str) -> (r: bool)
    ensures
        r == password_verifies(password@, hash@),
{
    Argon2::default().verify_password(password.as_bytes(), hash).is_ok()
}

/// Relies on argon2::Argon2::hash_password: it hashes with a fresh random
/// salt and returns a PHC string; verify_password recomputes the same
/// function from the salt and parameters carried in that string, so a
/// fresh hash verifies against its own password. The salt is random, so
/// nothing more is promised of the text.
#[verifier::external_body]
pub fn hash_password(password: &str) -> (r: Option<String>)
    ensures
        r matches Some(h) ==> password_verifies(password@, h@),
{
    match Argon2::default().hash_password(password.as_bytes()) {
        Ok(h) => Some(h.to_string()),
        Err(_) => None,
    }
}

} // verus!
