//! The failure taxonomy of the execution pipeline.

use vstd::prelude::*;

verus! {

/// The reason a raw response could not be decoded into a record.
#[derive(Debug, Clone, PartialEq, Eq)]
pub enum DecodeFault {
    /// The response carried no `Content-Type` header.
    MissingContentType,
    /// The numeric status code has no canonical reason phrase.
    UnknownStatusCode,
    /// The response declared a JSON content type but its body is not valid JSON.
    InvalidJsonBody,
}

/// Everything that can abort an execute-request call.
///
/// Every error aborts the remaining pipeline steps immediately; none is
/// retried.
#[derive(Debug, Clone, PartialEq, Eq)]
pub enum Error {
    /// A write affected a different number of rows than required:
    /// `UnexpectedRowsAffected(expected, actual)`.
    UnexpectedRowsAffected(u64, u64),
    /// A referenced record does not exist.
    NotFound,
    /// A persistence write did not succeed.
    CreateFailed(String),
    /// The outbound call could not be made or failed on the wire, or the
    /// stored request cannot be put on the wire at all.
    TransportError(String),
    /// The received response could not be decoded into a raw record.
    DecodingPrecondition(DecodeFault),
}

impl Error {
    /// The HTTP status code under which the error is reported upward.
    pub fn status(&self) -> (s: u16)
        ensures
            s == if self is NotFound { 404u16 } else { 500u16 },
    {
        match self {
            Error::NotFound => 404,
            _ => 500,
        }
    }

    /// A short human-readable description of the error kind.
    pub fn message(&self) -> (m: String)
        ensures
            m@ == match *self {
                Error::UnexpectedRowsAffected(_, _) => "unexpected rows affected"@,
                Error::NotFound => "resource not found."@,
                Error::CreateFailed(reason) => "resource created failed: "@ + reason@,
                Error::TransportError(reason) => "transport error: "@ + reason@,
                Error::DecodingPrecondition(_) => "response decoding precondition violated"@,
            },
    {
        match self {
            Error::UnexpectedRowsAffected(_, _) => "unexpected rows affected".to_owned(),
            Error::NotFound => "resource not found.".to_owned(),
            Error::CreateFailed(reason) => "resource created failed: ".to_owned().concat(
                reason.as_str(),
            ),
            Error::TransportError(reason) => "transport error: ".to_owned().concat(
                reason.as_str(),
            ),
            Error::DecodingPrecondition(_) => "response decoding precondition violated".to_owned(),
        }
    }
}

} // verus!
