//! The uniform response envelope: every handler result is wrapped in an
//! `ApiResponse` carrying a success flag, an optional payload, a
//! human-readable message and a generation timestamp.

use vstd::prelude::*;

verus! {

/// The two failure conditions a handler can report. They are surfaced
/// to the transport as the corresponding status codes.
#[derive(Clone, Copy, Debug, PartialEq, Eq, Structural)]
pub enum ApiError {
    /// A referenced id is absent from its store (status 404).
    NotFound,
    /// A required field is missing or a referential check failed
    /// (status 400).
    BadRequest,
}

/// The envelope around every API result.
#[derive(Debug)]
pub struct ApiResponse<T> {
    pub success: bool,
    pub data: Option<T>,
    pub message: String,
    pub timestamp: i64,
}

/// Relies on chrono::Utc::now: the current wall-clock time, here in
/// milliseconds since the Unix epoch. Nothing is promised of the value.
#[verifier::external_body]
pub(crate) fn now_millis() -> i64 {
    chrono::Utc::now().timestamp_millis()
}

/// A success envelope embedding the payload.
pub fn ok_response<T>(data: T, message: String) -> (r: ApiResponse<T>)
    ensures
        r.success,
        r.data == Some(data),
        r.message == message,
{
    ApiResponse { success: true, data: Some(data), message, timestamp: now_millis() }
}

/// A failure envelope with no payload.
pub fn error_response<T>(message: String) -> (r: ApiResponse<T>)
    ensures
        !r.success,
        r.data is None,
        r.message == message,
{
    ApiResponse { success: false, data: None, message, timestamp: now_millis() }
}

} // verus!
