//! A second, transport-oriented error taxonomy mapped to conventional
//! HTTP status codes, with its own plainer envelope.

use vstd::prelude::*;
use crate::response::{ResponseData, Status};

verus! {

/// A response body with a mandatory message. Its status field reads
/// `success` whatever the outcome; the HTTP status code alone tells
/// these apart (kept wire behavior).
#[derive(Debug, Clone)]
pub struct GeneralResponse {
    pub status: Status,
    pub message: String,
    pub data: Option<ResponseData>,
}

/// Request failures mapped one-to-one onto HTTP status codes.
#[derive(Debug, Clone)]
pub enum ApiError {
    NotFound(String),
    BadRequest(String),
    Unauthorized(String),
    InternalServerError,
}

impl ApiError {
    /// The HTTP status code and body for each failure: 404, 400, 401 or
    /// 500, with the carried message (or a generic one for server
    /// faults), no payload, and the `success` status marker.
    pub fn into_response_parts(self) -> (r: (u16, GeneralResponse))
        ensures
            r.1.status == Status::Success,
            r.1.data is None,
            self matches ApiError::NotFound(m) ==> r.0 == 404 && r.1.message == m,
            self matches ApiError::BadRequest(m) ==> r.0 == 400 && r.1.message == m,
            self matches ApiError::Unauthorized(m) ==> r.0 == 401 && r.1.message == m,
            self is InternalServerError ==> r.0 == 500 && r.1.message@ == "Internal server error"@,
    {
        let (status, message): (u16, String) = match self {
            ApiError::NotFound(err) => (404, err),
            ApiError::BadRequest(err) => (400, err),
            ApiError::Unauthorized(err) => (401, err),
            ApiError::InternalServerError => (500, "Internal server error".to_owned()),
        };
        (status, GeneralResponse { status: Status::Success, message, data: None })
    }
}

} // verus!
