//! The error that a middleware returns when it cannot proceed.
use vstd::prelude::*;
use crate::response::Response;

verus! {

/// What kind of failure an error reports.
pub enum NickelErrorKind {
    /// An HTTP status, such as 404 or 400.
    ErrorWithStatusCode(u16),
    /// A code and a message chosen by the application.
    UserDefinedError(i64, String),
    /// Any other failure, such as a stream that broke off.
    Other,
}

/// An error with a message, and the response it concerns where that response
/// can still be written to.
pub struct NickelError {
    pub kind: NickelErrorKind,
    pub message: String,
    pub stream: Option<Response>,
}

impl NickelError {
    /// An error that carries no response.
    pub fn new(message: String, kind: NickelErrorKind) -> (r: NickelError)
        ensures
            r.kind == kind,
            r.message == message,
            r.stream is None,
    {
        NickelError { kind, message, stream: None }
    }

    /// An error with an HTTP status that carries the response it concerns.
    pub fn with_response(stream: Response, message: String, status: u16) -> (r: NickelError)
        ensures
            r.kind == NickelErrorKind::ErrorWithStatusCode(status),
            r.message == message,
            r.stream == Some(stream),
    {
        NickelError { kind: NickelErrorKind::ErrorWithStatusCode(status), message, stream: Some(stream) }
    }
}

} // verus!
