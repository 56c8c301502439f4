//! HTTP status codes.

use vstd::prelude::*;
use vstd::string::StringExecFns;
use crate::util::text::{decimal, decimal_string};

verus! {

/// The reason phrase that the `http` crate knows for the status `code`, if it knows one.
pub uninterp spec fn canonical_reason(code: u16) -> Option<Seq<char>>;

/// `http::StatusCode::canonical_reason` of the status that `http::StatusCode::from_u16`
/// makes of `code`: the standard reason phrase of the status, where `code` is a status
/// and has one. The result depends on the number alone.
#[verifier::external_body]
fn reason_phrase(code: u16) -> (r: Option<&'static str>)
    ensures
        match r {
            Some(s) => canonical_reason(code) == Some(s@),
            None => canonical_reason(code) is None,
        },
{
    http::StatusCode::from_u16(code).ok().and_then(|s| s.canonical_reason())
}

/// The text of a status: its number and its reason phrase.
pub open spec fn status_text(code: u16) -> Seq<char> {
    decimal(code as nat) + " "@ + match canonical_reason(code) {
        Some(reason) => reason,
        None => "<unknown status code>"@,
    }
}

/// An HTTP status code: a number from 100 to 999.
#[derive(Clone, Copy, Debug, PartialEq, Eq, PartialOrd, Ord, Hash)]
pub struct StatusCode {
    code: u16,
}

impl StatusCode {
    #[verifier::type_invariant]
    spec fn in_range(self) -> bool {
        100 <= self.code <= 999
    }

    /// The number of the status.
    pub closed spec fn view(&self) -> u16 {
        self.code
    }

    /// The status with the number `code`, if that is a status code at all.
    pub fn from_u16(code: u16) -> (r: Option<StatusCode>)
        ensures
            r is Some <==> 100 <= code <= 999,
            r matches Some(s) ==> s@ == code,
    {
        if 100 <= code && code <= 999 {
            Some(StatusCode { code })
        } else {
            None
        }
    }

    /// 200 OK.
    pub fn ok() -> (r: StatusCode)
        ensures
            r@ == 200,
    {
        StatusCode { code: 200 }
    }

    /// 429 Too Many Requests.
    pub fn too_many_requests() -> (r: StatusCode)
        ensures
            r@ == 429,
    {
        StatusCode { code: 429 }
    }

    /// The number of the status.
    pub fn as_u16(&self) -> (r: u16)
        ensures
            r == self@,
            100 <= r <= 999,
    {
        proof {
            use_type_invariant(self);
        }
        self.code
    }

    /// The status as text: its number and its reason phrase.
    pub fn to_text(&self) -> (r: String)
        ensures
            r@ == status_text(self@),
    {
        let mut r = decimal_string(self.code as u128);
        r.append(" ");
        match reason_phrase(self.code) {
            Some(reason) => r.append(reason),
            None => r.append("<unknown status code>"),
        }
        r
    }

    /// Whether the status is in 200 to 299.
    pub fn is_success(&self) -> (r: bool)
        ensures
            r == (200 <= self@ <= 299),
    {
        200 <= self.code && self.code <= 299
    }

    /// Whether the status is in 400 to 499.
    pub fn is_client_error(&self) -> (r: bool)
        ensures
            r == (400 <= self@ <= 499),
    {
        400 <= self.code && self.code <= 499
    }

    /// Whether the status is in 500 to 599.
    pub fn is_server_error(&self) -> (r: bool)
        ensures
            r == (500 <= self@ <= 599),
    {
        500 <= self.code && self.code <= 599
    }
}

} // verus!
