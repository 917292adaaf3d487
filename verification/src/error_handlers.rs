//! Answers for requests that match no route.

use vstd::prelude::*;
use crate::response::{JsendResponse, Status};

verus! {

/// The catch-all answer of the outer router: 404 with a generic error
/// envelope, since an unmatched route is a resource that was not found.
pub fn fallback_handler() -> (r: (u16, JsendResponse))
    ensures
        r.0 == 404,
        r.1.status == Status::Error,
        (r.1.message matches Some(m) && m@ == "incorrect path placeholder message"@),
        r.1.data is None,
{
    (404, JsendResponse::error("incorrect path placeholder message".to_owned()))
}

/// The catch-all of the public route group: a bare 404 with a plain-text
/// body.
pub fn handle_invalid_path() -> (r: (u16, String))
    ensures
        r.0 == 404,
        r.1@ == "The requested resource was not found"@,
{
    (404, "The requested resource was not found".to_owned())
}

} // verus!
