//! What goes over the wire in one attempt, and how an attempt can fail.

pub mod headers;

use http::HeaderMap;
use vstd::prelude::*;
use crate::status::StatusCode;

verus! {

/// The request of one attempt: a `POST` of `body` to `url` with `headers`.
pub struct TransportRequest {
    /// Where the request goes: the text of a URL.
    pub url: String,
    /// The headers of the request.
    pub headers: HeaderMap,
    /// The bytes of the body.
    pub body: Vec<u8>,
}

/// The response to one attempt.
pub struct TransportResponse {
    /// The HTTP status.
    pub status: StatusCode,
    /// The headers of the response.
    pub headers: HeaderMap,
    /// The bytes of the body.
    pub body: Vec<u8>,
}

/// How an attempt failed before a response was had.
#[derive(Clone, Copy, Debug, PartialEq, Eq, Structural)]
pub enum TransportErrorKind {
    /// A timeout in any phase: connecting, sending, reading.
    Timeout,
    /// The connection could not be made.
    Connect,
    /// Anything else.
    Other,
}

/// A failed attempt.
#[derive(Debug)]
pub struct TransportError {
    /// How the attempt failed.
    pub kind: TransportErrorKind,
    /// What the transport says of the failure.
    pub message: String,
}

impl TransportError {
    /// Whether the attempt may be made again: only after a timeout or a failure to
    /// connect.
    pub fn retryable(&self) -> (r: bool)
        ensures
            r == (self.kind == TransportErrorKind::Timeout || self.kind
                == TransportErrorKind::Connect),
    {
        match self.kind {
            TransportErrorKind::Timeout => true,
            TransportErrorKind::Connect => true,
            TransportErrorKind::Other => false,
        }
    }
}

} // verus!
