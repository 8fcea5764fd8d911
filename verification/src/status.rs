//! Status codes of responses and their reason phrases.

use vstd::prelude::*;

verus! {

/// A three-digit response status.
#[derive(Debug, Clone, Copy, PartialEq, Eq, Structural)]
pub struct StatusCode {
    code: u16,
}

/// The reason phrase that `http` keeps for a status code, if it keeps one.
pub uninterp spec fn canonical_reason_of(code: u16) -> Option<Seq<char>>;

/// Whether `text` can stand in a status line: printable ASCII only, so no
/// line break.
pub open spec fn is_reason_text(text: Seq<char>) -> bool {
    forall|i: int| 0 <= i < text.len() ==> ' ' <= #[trigger] text[i] <= '~'
}

/// Whether `code` has three digits.
pub open spec fn is_status(code: int) -> bool {
    100 <= code < 1000
}

impl StatusCode {
    #[verifier::type_invariant]
    spec fn three_digits(self) -> bool {
        is_status(self.code as int)
    }

    /// The number of the status.
    pub closed spec fn value(self) -> u16 {
        self.code
    }

    /// The status with the number `code`, if `code` has three digits.
    pub fn from_u16(code: u16) -> (r: Option<StatusCode>)
        ensures
            r is Some <==> is_status(code as int),
            r matches Some(s) ==> s.value() == code,
    {
        if 100 <= code && code < 1000 {
            Some(StatusCode { code })
        } else {
            None
        }
    }

    /// The number of the status.
    pub fn as_u16(&self) -> (r: u16)
        ensures
            r == self.value(),
            is_status(r as int),
    {
        proof {
            use_type_invariant(self);
        }
        self.code
    }

    /// 200 OK
    pub fn ok() -> (r: StatusCode)
        ensures
            r.value() == 200,
    {
        StatusCode { code: 200 }
    }

    /// 400 Bad Request
    pub fn bad_request() -> (r: StatusCode)
        ensures
            r.value() == 400,
    {
        StatusCode { code: 400 }
    }

    /// 401 Unauthorized
    pub fn unauthorized() -> (r: StatusCode)
        ensures
            r.value() == 401,
    {
        StatusCode { code: 401 }
    }

    /// 500 Internal Server Error
    pub fn internal_server_error() -> (r: StatusCode)
        ensures
            r.value() == 500,
    {
        StatusCode { code: 500 }
    }

    /// 501 Not Implemented
    pub fn not_implemented() -> (r: StatusCode)
        ensures
            r.value() == 501,
    {
        StatusCode { code: 501 }
    }

    /// 502 Bad Gateway
    pub fn bad_gateway() -> (r: StatusCode)
        ensures
            r.value() == 502,
    {
        StatusCode { code: 502 }
    }

    /// The standard reason phrase of the status, `None` for a status that
    /// has none.
    pub fn canonical_reason(&self) -> (r: Option<&'static str>)
        ensures
            r is Some <==> canonical_reason_of(self.value()) is Some,
            r matches Some(text) ==> canonical_reason_of(self.value()) == Some(text@)
                && is_reason_text(text@),
    {
        let code: u16 = self.as_u16();
        reason_phrase(code)
    }
}

/// `http::StatusCode::canonical_reason`, for the status that
/// `http::StatusCode::from_u16` makes of `code`. Trusted: the phrase is the
/// one that `http` keeps in its table of registered codes, and every phrase
/// of that table is made of letters, spaces, hyphens and apostrophes.
#[verifier::external_body]
fn reason_phrase(code: u16) -> (r: Option<&'static str>)
    requires
        is_status(code as int),
    ensures
        r is Some <==> canonical_reason_of(code) is Some,
        r matches Some(text) ==> canonical_reason_of(code) == Some(text@) && is_reason_text(text@),
{
    http::StatusCode::from_u16(code).ok().and_then(|status| status.canonical_reason())
}

} // verus!
