//! API errors: the status and the `{"error", "message"}` body of every failure.

use vstd::prelude::*;

verus! {

/// 201 Created.
pub const STATUS_CREATED: u16 = 201;

/// 204 No Content.
pub const STATUS_NO_CONTENT: u16 = 204;

/// 400 Bad Request.
pub const STATUS_BAD_REQUEST: u16 = 400;

/// 404 Not Found.
pub const STATUS_NOT_FOUND: u16 = 404;

/// 409 Conflict.
pub const STATUS_CONFLICT: u16 = 409;

/// 422 Unprocessable Entity.
pub const STATUS_UNPROCESSABLE: u16 = 422;

/// 500 Internal Server Error.
pub const STATUS_INTERNAL: u16 = 500;

/// 503 Service Unavailable.
pub const STATUS_UNAVAILABLE: u16 = 503;

/// What an [`ApiError`] answers: its status, its stable code and its message.
pub struct ApiErrorView {
    pub status: u16,
    pub code: Seq<char>,
    pub message: Seq<char>,
}

/// An API error, answered as `{"error": code, "message": message}` with `status`.
///
/// The code is a `&'static str`: a literal of this program, never a piece of the
/// request or of an internal error.
#[derive(Debug)]
pub struct ApiError {
    status: u16,
    code: &'static str,
    message: String,
}

impl View for ApiError {
    type V = ApiErrorView;

    closed spec fn view(&self) -> ApiErrorView {
        ApiErrorView { status: self.status, code: self.code@, message: self.message@ }
    }
}

/// The message of every internal error.
pub const INTERNAL_MESSAGE: &'static str = "the request could not be completed due to an internal error";

impl ApiError {
    /// An error with the given status, code and message.
    pub fn new(status: u16, code: &'static str, message: String) -> (e: ApiError)
        ensures
            e@ == (ApiErrorView { status, code: code@, message: message@ }),
    {
        ApiError { status, code, message }
    }

    /// 400: the request itself is wrong; retrying it unchanged fails again.
    pub fn bad_request(code: &'static str, message: String) -> (e: ApiError)
        ensures
            e@ == (ApiErrorView { status: STATUS_BAD_REQUEST, code: code@, message: message@ }),
    {
        ApiError::new(STATUS_BAD_REQUEST, code, message)
    }

    /// 500, with a deliberately vague message: the real cause is logged, never sent.
    pub fn internal() -> (e: ApiError)
        ensures
            e@ == (ApiErrorView {
                status: STATUS_INTERNAL,
                code: "database_error"@,
                message: INTERNAL_MESSAGE@,
            }),
    {
        ApiError::new(STATUS_INTERNAL, "database_error", String::from_str(INTERNAL_MESSAGE))
    }

    /// The HTTP status.
    pub fn status(&self) -> (r: u16)
        ensures
            r == self@.status,
    {
        self.status
    }

    /// The stable error code the client programs against.
    pub fn code(&self) -> (r: &'static str)
        ensures
            r@ == self@.code,
    {
        self.code
    }

    /// The human-readable message.
    pub fn message(&self) -> (r: &str)
        ensures
            r@ == self@.message,
    {
        self.message.as_str()
    }
}


/// The body of a failure raised before any handler ran (no route matched, the
/// body was not JSON, a field was missing): the same `{error, message}` shape
/// as the handlers' own errors.
pub open spec fn catcher_spec(status: u16) -> ApiErrorView {
    if status == STATUS_NOT_FOUND {
        ApiErrorView { status, code: "not_found"@, message: "no route matches this request"@ }
    } else if status == STATUS_BAD_REQUEST {
        ApiErrorView { status, code: "malformed_json"@, message: "the request body is not valid JSON"@ }
    } else if status == STATUS_UNPROCESSABLE {
        ApiErrorView {
            status,
            code: "invalid_body"@,
            message: "the request body lacks a required field or has a field of the wrong type"@,
        }
    } else if status == STATUS_UNAVAILABLE {
        ApiErrorView {
            status,
            code: "database_unavailable"@,
            message: "the database is not answering"@,
        }
    } else {
        ApiErrorView { status, code: "http_error"@, message: "the request could not be handled"@ }
    }
}

/// Turns a bare status raised outside the handlers into a JSON error.
pub fn catcher_error(status: u16) -> (e: ApiError)
    ensures
        e@ == catcher_spec(status),
{
    if status == STATUS_NOT_FOUND {
        ApiError::new(status, "not_found", String::from_str("no route matches this request"))
    } else if status == STATUS_BAD_REQUEST {
        ApiError::new(status, "malformed_json", String::from_str("the request body is not valid JSON"))
    } else if status == STATUS_UNPROCESSABLE {
        ApiError::new(
            status,
            "invalid_body",
            String::from_str("the request body lacks a required field or has a field of the wrong type"),
        )
    } else if status == STATUS_UNAVAILABLE {
        ApiError::new(status, "database_unavailable", String::from_str("the database is not answering"))
    } else {
        ApiError::new(status, "http_error", String::from_str("the request could not be handled"))
    }
}

} // verus!
