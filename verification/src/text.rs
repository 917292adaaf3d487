//! ASCII case folding for stored email addresses.

use vstd::prelude::*;

verus! {

/// `c` with an ASCII capital letter folded to its lowercase form; any
/// other character unchanged.
pub open spec fn ascii_lower_char(c: char) -> char {
    if 'A' <= c && c <= 'Z' {
        ((c as u8) + 32) as char
    } else {
        c
    }
}

/// The string with every ASCII capital letter folded to lowercase.
pub open spec fn ascii_lower(s: Seq<char>) -> Seq<char> {
    s.map_values(|c: char| ascii_lower_char(c))
}

/// Relies on str's PartialEq impl of std: two string slices compare
/// equal exactly when their texts are equal.
#[verifier::external_body]
pub fn str_eq(a: &str, b: &str) -> (r: bool)
    ensures
        r == (a@ == b@),
{
    a == b
}

/// Relies on str::to_ascii_lowercase of std: it maps 'A'..='Z' to their
/// lowercase counterparts and leaves every other character unchanged.
#[verifier::external_body]
pub fn to_ascii_lowercase(s: &str) -> (r: String)
    ensures
        r@ == ascii_lower(s@),
{
    s.to_ascii_lowercase()
}

} // verus!
