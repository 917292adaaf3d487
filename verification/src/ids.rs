//! Identifier texts, delegated to the uuid crate.
//!
//! The store works with 128-bit identifiers; on the wire they travel as
//! UUID strings. Which strings parse as a UUID, to which value, and what
//! the canonical text of a value is, are pure functions of their input;
//! the two names below stand for them.

use vstd::prelude::*;

verus! {

/// The 128-bit value a string denotes as a UUID, or `None` where the
/// string is not one, as uuid::Uuid::parse_str decides it.
pub uninterp spec fn uuid_of_str(s: Seq<char>) -> Option<u128>;

/// The canonical hyphenated text of a 128-bit identifier, as
/// uuid::Uuid::from_u128 displays it.
pub uninterp spec fn uuid_str_of(id: u128) -> Seq<char>;

/// Relies on uuid::Uuid::parse_str and Uuid::as_u128: whether and as
/// which value a string parses depends on the string alone.
#[verifier::external_body]
pub fn parse_uuid(s: &str) -> (r: Option<u128>)
    ensures
        r == uuid_of_str(s@),
{
    match uuid::Uuid::parse_str(s) {
        Ok(u) => Some(u.as_u128()),
        Err(_) => None,
    }
}

/// Relies on uuid::Uuid::from_u128 and the Display impl of Uuid: the
/// hyphenated text of a UUID depends on its value alone.
#[verifier::external_body]
pub fn uuid_to_string(id: u128) -> (r: String)
    ensures
        r@ == uuid_str_of(id),
{
    uuid::Uuid::from_u128(id).to_string()
}

} // verus!
