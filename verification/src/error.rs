//! The error taxonomy: every failure of a call is one of these.

use vstd::prelude::*;
use vstd::string::StringExecFns;
use crate::status::{status_text, StatusCode};
use crate::util::text::{decimal, decimal_string};
use crate::util::time::Duration;

verus! {

/// High-level error categories.
#[derive(Clone, Copy, Debug, PartialEq, Eq, Structural)]
#[non_exhaustive]
pub enum ErrorKind {
    /// Authentication or authorization failure.
    Auth,
    /// Resource not found.
    NotFound,
    /// Conflict (usually idempotency or version conflict).
    Conflict,
    /// Rate limited.
    RateLimited,
    /// Network / HTTP transport failures.
    Transport,
    /// Response decoding failures.
    Decode,
    /// The API returned a structured error.
    Api,
    /// Invalid client configuration.
    InvalidConfig,
}

/// A structured API error.
#[derive(Clone, Debug)]
#[non_exhaustive]
pub struct ApiError {
    /// HTTP status code, if available.
    pub status: Option<StatusCode>,
    /// Business error code, if available.
    pub code: Option<i64>,
    /// Error message, if available.
    pub message: Option<String>,
    /// Provider request id, if available.
    pub request_id: Option<String>,
    /// Redacted response snippet, if enabled.
    pub body_snippet: Option<String>,
}

/// SDK error type.
#[derive(Clone, Debug)]
#[non_exhaustive]
#[allow(inconsistent_fields)]
pub enum Error {
    /// Invalid client configuration.
    InvalidConfig {
        /// Human-readable message.
        message: String,
    },
    /// Network/transport level failures.
    Transport {
        /// Human-readable message.
        message: String,
    },
    /// HTTP returned a non-success status.
    Http {
        /// HTTP status.
        status: StatusCode,
        /// Provider request id, if available.
        request_id: Option<String>,
        /// Redacted response snippet, if enabled.
        body_snippet: Option<String>,
    },
    /// The request was rate limited.
    RateLimited {
        /// Suggested delay before retrying.
        retry_after: Option<Duration>,
        /// Provider request id, if available.
        request_id: Option<String>,
        /// Redacted response snippet, if enabled.
        body_snippet: Option<String>,
    },
    /// The API returned a structured business error.
    Api {
        /// Structured details.
        error: ApiError,
    },
    /// Failed to decode response body.
    Decode {
        /// Human-readable message.
        message: String,
        /// HTTP status, if available.
        status: Option<StatusCode>,
        /// Provider request id, if available.
        request_id: Option<String>,
        /// Redacted response snippet, if enabled.
        body_snippet: Option<String>,
    },
}

/// The characters of an optional string.
pub open spec fn text_of(s: Option<String>) -> Option<Seq<char>> {
    match s {
        Some(s) => Some(s@),
        None => None,
    }
}

/// The number of an optional status.
pub open spec fn number_of(s: Option<StatusCode>) -> Option<u16> {
    match s {
        Some(s) => Some(s@),
        None => None,
    }
}

/// `n` in decimal, with a minus sign where it is negative.
pub open spec fn signed_decimal(n: i64) -> Seq<char> {
    if n < 0 {
        "-"@ + decimal((-n) as nat)
    } else {
        decimal(n as nat)
    }
}

fn signed_decimal_string(n: i64) -> (r: String)
    ensures
        r@ == signed_decimal(n),
{
    if n < 0 {
        let magnitude: u128 = (-(n as i128)) as u128;
        let mut r = "-".to_owned();
        r.append(decimal_string(magnitude).as_str());
        r
    } else {
        decimal_string(n as u128)
    }
}

/// The parts of the text of an API error that are there, in order: status, code,
/// message.
pub open spec fn api_error_parts(
    status: Option<u16>,
    code: Option<i64>,
    message: Option<Seq<char>>,
) -> Seq<Seq<char>> {
    let a = match status {
        Some(s) => seq!["status="@ + status_text(s)],
        None => Seq::<Seq<char>>::empty(),
    };
    let b = match code {
        Some(c) => seq!["code="@ + signed_decimal(c)],
        None => Seq::<Seq<char>>::empty(),
    };
    let c = match message {
        Some(m) => if status is None && code is None {
            seq![m]
        } else {
            seq!["message="@ + m]
        },
        None => Seq::<Seq<char>>::empty(),
    };
    a + b + c
}

/// `parts` joined with a comma and a space.
pub open spec fn joined(parts: Seq<Seq<char>>) -> Seq<char>
    decreases parts.len(),
{
    if parts.len() == 0 {
        Seq::empty()
    } else if parts.len() == 1 {
        parts[0]
    } else {
        joined(parts.drop_last()) + ", "@ + parts.last()
    }
}

/// The text of an API error: what it has of status, code and message, or a note that
/// it has none of them.
pub open spec fn api_error_text(
    status: Option<u16>,
    code: Option<i64>,
    message: Option<Seq<char>>,
) -> Seq<char> {
    if status is None && code is None && message is None {
        "unknown api error"@
    } else {
        joined(api_error_parts(status, code, message))
    }
}

impl ApiError {
    /// The text of this error.
    pub fn to_text(&self) -> (r: String)
        ensures
            r@ == api_error_text(number_of(self.status), self.code, text_of(self.message)),
    {
        let mut r = String::new();
        let ghost mut parts: Seq<Seq<char>> = Seq::empty();
        if let Some(status) = &self.status {
            r.append("status=");
            r.append(status.to_text().as_str());
            proof {
                parts = parts.push("status="@ + status_text(status@));
            }
        }
        assert(r@ == joined(parts));
        if let Some(code) = self.code {
            if self.status.is_some() {
                r.append(", ");
            }
            r.append("code=");
            r.append(signed_decimal_string(code).as_str());
            proof {
                let part = "code="@ + signed_decimal(code);
                assert(parts.push(part).drop_last() == parts);
                parts = parts.push(part);
            }
        }
        assert(r@ == joined(parts));
        if let Some(message) = &self.message {
            if self.status.is_some() || self.code.is_some() {
                r.append(", ");
                r.append("message=");
            }
            r.append(message.as_str());
            proof {
                let part = if self.status is None && self.code is None {
                    message@
                } else {
                    "message="@ + message@
                };
                assert(parts.push(part).drop_last() == parts);
                parts = parts.push(part);
            }
        }
        assert(parts == api_error_parts(number_of(self.status), self.code, text_of(self.message)));
        if self.status.is_none() && self.code.is_none() && self.message.is_none() {
            return "unknown api error".to_owned();
        }
        r
    }
}

/// The category that an HTTP status stands for, where it stands for one.
pub open spec fn status_kind(status: Option<u16>) -> Option<ErrorKind> {
    match status {
        Some(s) => if s == 401 || s == 403 {
            Some(ErrorKind::Auth)
        } else if s == 404 {
            Some(ErrorKind::NotFound)
        } else if s == 409 {
            Some(ErrorKind::Conflict)
        } else if s == 429 {
            Some(ErrorKind::RateLimited)
        } else {
            None
        },
        None => None,
    }
}

/// The category that a business code stands for, where it stands for one.
pub open spec fn code_kind(code: i64) -> Option<ErrorKind> {
    if code == 106 || code == 107 || code == 108 || code == 109 || code == 403 {
        Some(ErrorKind::Auth)
    } else if code == 429 {
        Some(ErrorKind::RateLimited)
    } else {
        None
    }
}

/// The category of a structured API error: by its business code first, then by its
/// status, else `Api`.
pub open spec fn api_error_kind(code: Option<i64>, status: Option<u16>) -> ErrorKind {
    let by_code = match code {
        Some(c) => code_kind(c),
        None => None,
    };
    match by_code {
        Some(k) => k,
        None => match status_kind(status) {
            Some(k) => k,
            None => ErrorKind::Api,
        },
    }
}

/// The category that an HTTP status stands for, where it stands for one.
pub fn status_to_kind(status: Option<StatusCode>) -> (r: Option<ErrorKind>)
    ensures
        r == status_kind(number_of(status)),
{
    match status {
        Some(s) => {
            let n: u16 = s.as_u16();
            if n == 401 || n == 403 {
                Some(ErrorKind::Auth)
            } else if n == 404 {
                Some(ErrorKind::NotFound)
            } else if n == 409 {
                Some(ErrorKind::Conflict)
            } else if n == 429 {
                Some(ErrorKind::RateLimited)
            } else {
                None
            }
        },
        None => None,
    }
}

/// The category that a business code stands for, where it stands for one.
pub fn code_to_kind(code: i64) -> (r: Option<ErrorKind>)
    ensures
        r == code_kind(code),
{
    if code == 106 || code == 107 || code == 108 || code == 109 || code == 403 {
        Some(ErrorKind::Auth)
    } else if code == 429 {
        Some(ErrorKind::RateLimited)
    } else {
        None
    }
}

impl Error {
    /// The category of this error.
    pub open spec fn kind_spec(&self) -> ErrorKind {
        match self {
            Error::InvalidConfig { .. } => ErrorKind::InvalidConfig,
            Error::Transport { .. } => ErrorKind::Transport,
            Error::Decode { .. } => ErrorKind::Decode,
            Error::RateLimited { .. } => ErrorKind::RateLimited,
            Error::Api { error } => api_error_kind(error.code, number_of(error.status)),
            Error::Http { status, .. } => match status_kind(Some(status@)) {
                Some(k) => k,
                None => ErrorKind::Transport,
            },
        }
    }

    /// The HTTP status that this error carries.
    pub open spec fn status_spec(&self) -> Option<u16> {
        match self {
            Error::Http { status, .. } => Some(status@),
            Error::Api { error } => number_of(error.status),
            Error::Decode { status, .. } => number_of(*status),
            Error::RateLimited { .. } => Some(429u16),
            Error::InvalidConfig { .. } | Error::Transport { .. } => None,
        }
    }

    /// The request id that this error carries.
    pub open spec fn request_id_spec(&self) -> Option<Seq<char>> {
        match self {
            Error::Http { request_id, .. } => text_of(*request_id),
            Error::Api { error } => text_of(error.request_id),
            Error::Decode { request_id, .. } => text_of(*request_id),
            Error::RateLimited { request_id, .. } => text_of(*request_id),
            Error::InvalidConfig { .. } | Error::Transport { .. } => None,
        }
    }

    /// The body snippet that this error carries.
    pub open spec fn body_snippet_spec(&self) -> Option<Seq<char>> {
        match self {
            Error::Http { body_snippet, .. } => text_of(*body_snippet),
            Error::Api { error } => text_of(error.body_snippet),
            Error::Decode { body_snippet, .. } => text_of(*body_snippet),
            Error::RateLimited { body_snippet, .. } => text_of(*body_snippet),
            Error::InvalidConfig { .. } | Error::Transport { .. } => None,
        }
    }

    /// The text of this error.
    pub open spec fn text_spec(&self) -> Seq<char> {
        match self {
            Error::InvalidConfig { message } => "invalid config: "@ + message@,
            Error::Transport { message } => "transport error: "@ + message@,
            Error::Http { status, .. } => "http error: status="@ + status_text(status@),
            Error::RateLimited { .. } => "rate limited"@,
            Error::Api { error } => "api error: "@ + api_error_text(
                number_of(error.status),
                error.code,
                text_of(error.message),
            ),
            Error::Decode { message, .. } => "decode error: "@ + message@,
        }
    }

    /// The text of this error, for people.
    pub fn to_text(&self) -> (r: String)
        ensures
            r@ == self.text_spec(),
    {
        match self {
            Error::InvalidConfig { message } => {
                let mut r = "invalid config: ".to_owned();
                r.append(message.as_str());
                r
            },
            Error::Transport { message } => {
                let mut r = "transport error: ".to_owned();
                r.append(message.as_str());
                r
            },
            Error::Http { status, .. } => {
                let mut r = "http error: status=".to_owned();
                r.append(status.to_text().as_str());
                r
            },
            Error::RateLimited { .. } => "rate limited".to_owned(),
            Error::Api { error } => {
                let mut r = "api error: ".to_owned();
                r.append(error.to_text().as_str());
                r
            },
            Error::Decode { message, .. } => {
                let mut r = "decode error: ".to_owned();
                r.append(message.as_str());
                r
            },
        }
    }

    /// Get the high-level category.
    pub fn kind(&self) -> (r: ErrorKind)
        ensures
            r == self.kind_spec(),
    {
        match self {
            Error::InvalidConfig { .. } => ErrorKind::InvalidConfig,
            Error::Transport { .. } => ErrorKind::Transport,
            Error::Decode { .. } => ErrorKind::Decode,
            Error::RateLimited { .. } => ErrorKind::RateLimited,
            Error::Api { error } => {
                let by_code = match error.code {
                    Some(c) => code_to_kind(c),
                    None => None,
                };
                match by_code {
                    Some(k) => k,
                    None => match status_to_kind(error.status) {
                        Some(k) => k,
                        None => ErrorKind::Api,
                    },
                }
            },
            Error::Http { status, .. } => match status_to_kind(Some(*status)) {
                Some(k) => k,
                None => ErrorKind::Transport,
            },
        }
    }

    /// HTTP status code, if any.
    pub fn status(&self) -> (r: Option<StatusCode>)
        ensures
            number_of(r) == self.status_spec(),
    {
        match self {
            Error::Http { status, .. } => Some(*status),
            Error::Api { error } => error.status,
            Error::Decode { status, .. } => *status,
            Error::RateLimited { .. } => Some(StatusCode::too_many_requests()),
            Error::InvalidConfig { .. } | Error::Transport { .. } => None,
        }
    }

    /// Provider request id, if any.
    pub fn request_id(&self) -> (r: Option<&str>)
        ensures
            r is Some <==> self.request_id_spec() is Some,
            r matches Some(s) ==> Some(s@) == self.request_id_spec(),
    {
        match self {
            Error::Http { request_id, .. } => as_text(request_id),
            Error::Api { error } => as_text(&error.request_id),
            Error::Decode { request_id, .. } => as_text(request_id),
            Error::RateLimited { request_id, .. } => as_text(request_id),
            Error::InvalidConfig { .. } | Error::Transport { .. } => None,
        }
    }

    /// Redacted response body snippet, if enabled.
    pub fn body_snippet(&self) -> (r: Option<&str>)
        ensures
            r is Some <==> self.body_snippet_spec() is Some,
            r matches Some(s) ==> Some(s@) == self.body_snippet_spec(),
    {
        match self {
            Error::Http { body_snippet, .. } => as_text(body_snippet),
            Error::Api { error } => as_text(&error.body_snippet),
            Error::Decode { body_snippet, .. } => as_text(body_snippet),
            Error::RateLimited { body_snippet, .. } => as_text(body_snippet),
            Error::InvalidConfig { .. } | Error::Transport { .. } => None,
        }
    }

    /// Suggested delay before retrying, if rate limited.
    pub fn retry_after(&self) -> (r: Option<Duration>)
        ensures
            r == (match self {
                Error::RateLimited { retry_after, .. } => *retry_after,
                _ => None,
            }),
    {
        match self {
            Error::RateLimited { retry_after, .. } => *retry_after,
            _ => None,
        }
    }
}

impl core::fmt::Display for ApiError {
    /// Writes what `to_text` gives.
    fn fmt(&self, f: &mut core::fmt::Formatter<'_>) -> core::fmt::Result {
        f.write_str(self.to_text().as_str())
    }
}

impl core::fmt::Display for Error {
    /// Writes what `to_text` gives.
    fn fmt(&self, f: &mut core::fmt::Formatter<'_>) -> core::fmt::Result {
        f.write_str(self.to_text().as_str())
    }
}

impl std::error::Error for ApiError {

}

impl std::error::Error for Error {

}

fn as_text(s: &Option<String>) -> (r: Option<&str>)
    ensures
        r is Some <==> s is Some,
        r matches Some(t) ==> Some(t@) == text_of(*s),
{
    match s {
        Some(s) => Some(s.as_str()),
        None => None,
    }
}

} // verus!
