//! Field-length validation.
//!
//! Every text field of the API is checked against named byte-length bounds
//! with one shared rule: a length of 0 or 1 is reported as "cannot be
//! empty" (length-1 strings are deliberately folded into the empty case,
//! even where the minimum is larger), a longer-but-too-short value as
//! "too short", a too-long value as "too long"; anything else passes.
//! Lengths are UTF-8 byte lengths, as `str::len` gives them.

use vstd::prelude::*;
use vstd::string::StringSliceAdditionalSpecFns;

verus! {

/// A single rejected field value: a machine code and a human message
/// (in this taxonomy the two carry the same text).
#[derive(Debug, Clone)]
pub struct ValidationError {
    pub code: String,
    pub message: String,
}

/// UTF-8 byte length of a string value.
pub open spec fn byte_len(s: Seq<char>) -> nat {
    vstd::utf8::encode_utf8(s).len()
}

/// The verdict of the shared length rule: `None` when the length passes,
/// otherwise the message that names the failure.
pub open spec fn length_error(
    len: nat,
    min: nat,
    max: nat,
    min_err: Seq<char>,
    max_err: Seq<char>,
    empty_err: Seq<char>,
) -> Option<Seq<char>> {
    if len == 0 || len == 1 {
        Some(empty_err)
    } else if len < min {
        Some(min_err)
    } else if len > max {
        Some(max_err)
    } else {
        None
    }
}

/// Verdict for a username: bounds [1, 20].
pub open spec fn username_error(s: Seq<char>) -> Option<Seq<char>> {
    length_error(byte_len(s), 1, 20, "username too short"@, "username too long"@, "username cannot be empty"@)
}

/// Verdict for an email: bounds [1, 20].
pub open spec fn email_error(s: Seq<char>) -> Option<Seq<char>> {
    length_error(byte_len(s), 1, 20, "email too short"@, "email too long"@, "email cannot be empty"@)
}

/// Verdict for a password: bounds [8, 40].
pub open spec fn password_error(s: Seq<char>) -> Option<Seq<char>> {
    length_error(byte_len(s), 8, 40, "password too short"@, "password too long"@, "password cannot be empty"@)
}

/// Verdict for a post title: bounds [1, 20].
pub open spec fn title_error(s: Seq<char>) -> Option<Seq<char>> {
    length_error(byte_len(s), 1, 20, "title too short"@, "title too long"@, "title cannot be empty"@)
}

/// Verdict for post or comment content: bounds [1, 225].
pub open spec fn content_error(s: Seq<char>) -> Option<Seq<char>> {
    length_error(byte_len(s), 1, 225, "content too short"@, "content too long"@, "content cannot be empty"@)
}

fn validate_length(
    len: usize,
    min: usize,
    max: usize,
    min_err: &str,
    max_err: &str,
    empty_err: &str,
) -> (r: Result<(), ValidationError>)
    ensures
        r is Ok <==> length_error(len as nat, min as nat, max as nat, min_err@, max_err@, empty_err@) is None,
        r is Err ==> {
            let msg = length_error(len as nat, min as nat, max as nat, min_err@, max_err@, empty_err@)->Some_0;
            r->Err_0.code@ == msg && r->Err_0.message@ == msg
        },
{
    if len == 0 || len == 1 {
        Err(ValidationError { code: empty_err.to_owned(), message: empty_err.to_owned() })
    } else if len < min {
        Err(ValidationError { code: min_err.to_owned(), message: min_err.to_owned() })
    } else if len > max {
        Err(ValidationError { code: max_err.to_owned(), message: max_err.to_owned() })
    } else {
        Ok(())
    }
}

/// Byte length of a string slice, tied to the view of its UTF-8 bytes.
fn str_len(s: &str) -> (len: usize)
    ensures
        len as nat == byte_len(s@),
{
    s.as_bytes().len()
}

pub fn validate_username_length(username: &str) -> (r: Result<(), ValidationError>)
    ensures
        r is Ok <==> username_error(username@) is None,
        r is Err ==> r->Err_0.code@ == username_error(username@)->Some_0
            && r->Err_0.message@ == username_error(username@)->Some_0,
{
    let len = str_len(username);
    validate_length(len, 1, 20, "username too short", "username too long", "username cannot be empty")
}

pub fn validate_email_length(email: &str) -> (r: Result<(), ValidationError>)
    ensures
        r is Ok <==> email_error(email@) is None,
        r is Err ==> r->Err_0.code@ == email_error(email@)->Some_0
            && r->Err_0.message@ == email_error(email@)->Some_0,
{
    let len = str_len(email);
    validate_length(len, 1, 20, "email too short", "email too long", "email cannot be empty")
}

pub fn validate_password_length(password: &str) -> (r: Result<(), ValidationError>)
    ensures
        r is Ok <==> password_error(password@) is None,
        r is Err ==> r->Err_0.code@ == password_error(password@)->Some_0
            && r->Err_0.message@ == password_error(password@)->Some_0,
{
    let len = str_len(password);
    validate_length(len, 8, 40, "password too short", "password too long", "password cannot be empty")
}

pub fn validate_title_length(title: &str) -> (r: Result<(), ValidationError>)
    ensures
        r is Ok <==> title_error(title@) is None,
        r is Err ==> r->Err_0.code@ == title_error(title@)->Some_0
            && r->Err_0.message@ == title_error(title@)->Some_0,
{
    let len = str_len(title);
    validate_length(len, 1, 20, "title too short", "title too long", "title cannot be empty")
}

pub fn validate_content_length(content: &str) -> (r: Result<(), ValidationError>)
    ensures
        r is Ok <==> content_error(content@) is None,
        r is Err ==> r->Err_0.code@ == content_error(content@)->Some_0
            && r->Err_0.message@ == content_error(content@)->Some_0,
{
    let len = str_len(content);
    validate_length(len, 1, 225, "content too short", "content too long", "content cannot be empty")
}

} // verus!
