//! The uniform response envelope and the error taxonomy behind it.
//!
//! Every endpoint answers with one envelope shape: a `status` of
//! `success`, `fail` (a client-correctable business failure carrying
//! structured data) or `error` (a server fault carrying only a message),
//! an optional message and an optional data payload. Payloads are a
//! closed union of typed values; the application serializes them to JSON
//! at its edge, omitting absent fields.

use vstd::prelude::*;
use crate::model::{CommentResponse, PostResponse, ProfileModel, ProfileResponse};

verus! {

/// The three-state outcome every response declares.
#[derive(Debug, Clone, Copy, PartialEq, Eq, Structural)]
pub enum Status {
    Success,
    Fail,
    Error,
}

/// One rejected field with its message; `fail` payloads carry a list of
/// these, serialized as a field-to-message object.
#[derive(Debug, Clone)]
pub struct FieldError {
    pub field: String,
    pub message: String,
}

/// Holds when the field errors carry exactly the expected
/// (field, message) pairs, in order.
pub open spec fn fields_match(v: Seq<FieldError>, expected: Seq<(Seq<char>, Seq<char>)>) -> bool {
    &&& v.len() == expected.len()
    &&& forall|i: int| 0 <= i < v.len() ==> #[trigger] v[i].field@ == expected[i].0 && v[i].message@ == expected[i].1
}

/// The closed union of data payloads the endpoints produce.
#[derive(Debug, Clone)]
pub enum ResponseData {
    /// A field-to-message object, for validation and business failures.
    Fields(Vec<FieldError>),
    /// The logged-in username, under a `username` key.
    Username(String),
    /// The identity echo of the status endpoint.
    AuthStatus { is_logged_in: bool, username: String },
    /// One post with aggregates, under a `post` key.
    Post(PostResponse),
    /// All posts with aggregates, newest first, under a `posts` key.
    Posts(Vec<PostResponse>),
    /// The comments of one post, newest first, under a `comments` key.
    Comments(Vec<CommentResponse>),
    /// The public profile directory, under a `users` key.
    Users(Vec<ProfileResponse>),
    /// One profile, under a `profile` key.
    Profile(ProfileModel),
    /// Fresh aggregate counts after a reaction.
    ReactionCounts { post_id: u128, like_count: u64, dislike_count: u64 },
}

/// The envelope itself: `{status, message?, data?}`.
#[derive(Debug, Clone)]
pub struct JsendResponse {
    pub status: Status,
    pub message: Option<String>,
    pub data: Option<ResponseData>,
}

impl JsendResponse {
    /// A success envelope with an optional payload and no message.
    pub fn success(data: Option<ResponseData>) -> (r: JsendResponse)
        ensures
            r.status == Status::Success,
            r.message is None,
            r.data == data,
    {
        JsendResponse { status: Status::Success, message: None, data }
    }

    /// An error envelope: a message and no payload.
    pub fn error(message: String) -> (r: JsendResponse)
        ensures
            r.status == Status::Error,
            r.message == Some(message),
            r.data is None,
    {
        JsendResponse { status: Status::Error, message: Some(message), data: None }
    }

    /// A fail envelope: a payload and no message.
    pub fn fail(data: ResponseData) -> (r: JsendResponse)
        ensures
            r.status == Status::Fail,
            r.message is None,
            r.data == Some(data),
    {
        JsendResponse { status: Status::Fail, message: None, data: Some(data) }
    }
}

/// Every way a request can fail before or inside a handler.
#[derive(Debug, Clone)]
pub enum AppError {
    /// A database or store fault; detail never reaches the client.
    InternalServerError,
    /// The request body was not valid JSON for the expected shape.
    JsonRejection,
    /// Field validation rejected the body; carries the field errors.
    ValidationError(Vec<FieldError>),
    /// A path parameter did not deserialize.
    PathRejection,
    /// A business failure with a field-to-message payload.
    JsendFail(Vec<FieldError>),
    /// An ad-hoc server-side failure with a bare message.
    JsendError(String),
}

impl AppError {
    /// The HTTP status code and envelope for each failure.
    ///
    /// Kept wire behavior: validation failures and path rejections answer
    /// 200 (clients branch on the envelope's `status`, not on the
    /// transport code), bad JSON answers 400, and business `fail`s raised
    /// inside handlers answer 500 like server faults do.
    pub fn into_response_parts(self) -> (r: (u16, JsendResponse))
        ensures
            self is InternalServerError ==> r.0 == 500 && r.1.status == Status::Error
                && (r.1.message matches Some(m) && m@ == "internal server error"@) && r.1.data is None,
            self is JsonRejection ==> r.0 == 400 && r.1.status == Status::Error
                && (r.1.message matches Some(m) && m@ == "invalid json data"@) && r.1.data is None,
            self matches AppError::ValidationError(v) ==> r.0 == 200 && r.1.status == Status::Fail
                && r.1.message is None && r.1.data == Some(ResponseData::Fields(v)),
            self is PathRejection ==> r.0 == 200 && r.1.status == Status::Error
                && (r.1.message matches Some(m) && m@ == "invalid path data"@) && r.1.data is None,
            self matches AppError::JsendError(msg) ==> r.0 == 500 && r.1.status == Status::Error
                && r.1.message == Some(msg) && r.1.data is None,
            self matches AppError::JsendFail(v) ==> r.0 == 500 && r.1.status == Status::Fail
                && r.1.message is None && r.1.data == Some(ResponseData::Fields(v)),
    {
        match self {
            AppError::InternalServerError => (
                500,
                JsendResponse::error("internal server error".to_owned()),
            ),
            AppError::JsonRejection => (400, JsendResponse::error("invalid json data".to_owned())),
            AppError::ValidationError(v) => (200, JsendResponse::fail(ResponseData::Fields(v))),
            AppError::PathRejection => (200, JsendResponse::error("invalid path data".to_owned())),
            AppError::JsendError(msg) => (500, JsendResponse::error(msg)),
            AppError::JsendFail(v) => (500, JsendResponse::fail(ResponseData::Fields(v))),
        }
    }
}

/// Holds when `e` is a business fail whose payload is the single pair
/// (`field`, `message`).
pub open spec fn is_single_fail(e: AppError, field: Seq<char>, message: Seq<char>) -> bool {
    &&& e matches AppError::JsendFail(v)
    &&& fields_match(v@, seq![(field, message)])
}

/// A business fail carrying one (field, message) pair.
pub fn single_fail(field: &str, message: &str) -> (e: AppError)
    ensures
        is_single_fail(e, field@, message@),
{
    let mut v: Vec<FieldError> = Vec::new();
    v.push(FieldError { field: field.to_owned(), message: message.to_owned() });
    AppError::JsendFail(v)
}

} // verus!
