//! Standardized API response envelopes.
//!
//! Every response carries `success`, an optional `message`, the time it was
//! made and, for successful responses, an optional `data` payload. Errors use
//! the same envelope with `success` false.

use crate::clock::{now_utc, Timestamp};
use crate::errors::ApiError;
use crate::status::{is_success_code, StatusCode};
use vstd::prelude::*;
use vstd::string::StringExecFns;

verus! {

/// Result type for API handlers.
pub type ApiResult<T> = Result<ApiResponse<T>, ApiError>;

/// A standardized API response envelope.
#[derive(Debug, Clone, PartialEq)]
pub struct ApiResponse<T> {
    /// Indicates whether the request was successful.
    pub success: bool,
    /// Optional message providing additional context.
    pub message: Option<String>,
    /// Time when the response was generated (UTC).
    pub time: Timestamp,
    /// The response payload, if any.
    pub data: Option<T>,
    /// The HTTP status the envelope is sent with.
    pub status: StatusCode,
}

/// The envelope of an error response: `success` is always false.
#[derive(Debug, Clone, PartialEq)]
pub struct ErrorResponse {
    /// Always `false` for error responses.
    pub success: bool,
    /// The error message.
    pub message: String,
    /// Time when the error response was generated (UTC).
    pub time: Timestamp,
}

impl<T> ApiResponse<T> {
    /// Creates a successful response for HTTP 200 OK.
    pub fn ok(data: T) -> (r: Self)
        ensures
            r.success,
            r.status@ == 200,
            r.message is None,
            r.data == Some(data),
            r.time.nanoseconds < 1_000_000_000,
    {
        Self::with_status(StatusCode::new(200), data)
    }

    /// Creates a response with a custom HTTP status code, which it is sent
    /// with; `success` is true exactly for 2xx codes.
    pub fn with_status(status: StatusCode, data: T) -> (r: Self)
        ensures
            r.status == status,
            r.success == is_success_code(r.status@ as int),
            r.message is None,
            r.data == Some(data),
            r.time.nanoseconds < 1_000_000_000,
    {
        ApiResponse { success: status.is_success(), message: None, time: now_utc(), data: Some(data), status }
    }

    /// Creates a successful response with a custom message.
    pub fn with_message(data: T, message: &str) -> (r: Self)
        ensures
            r.success,
            r.status@ == 200,
            r.message matches Some(m) && m@ == message@,
            r.data == Some(data),
            r.time.nanoseconds < 1_000_000_000,
    {
        ApiResponse {
            success: true,
            message: Some(String::from_str(message)),
            time: now_utc(),
            data: Some(data),
            status: StatusCode::new(200),
        }
    }

    /// The HTTP status the envelope is sent with: the status it was built
    /// for.
    pub fn response_status(&self) -> (s: StatusCode)
        ensures
            s == self.status,
    {
        self.status
    }
}

impl ApiResponse<()> {
    /// Creates an empty success response (no data payload).
    pub fn empty() -> (r: Self)
        ensures
            r.success,
            r.status@ == 200,
            r.message is None,
            r.data is None,
            r.time.nanoseconds < 1_000_000_000,
    {
        ApiResponse { success: true, message: None, time: now_utc(), data: None, status: StatusCode::new(200) }
    }
}

impl ApiError {
    /// The response for this error: its status code and an envelope with
    /// `success` false and the error's message.
    pub fn error_response(&self) -> (r: (StatusCode, ErrorResponse))
        ensures
            r.0@ == self.spec_status(),
            !r.1.success,
            r.1.message@ == self.spec_message(),
            r.1.time.nanoseconds < 1_000_000_000,
    {
        let status = self.status_code();
        let message = self.message();
        (status, ErrorResponse { success: false, message, time: now_utc() })
    }
}

} // verus!
