//! HTTP status codes as plain three-digit numbers.

use vstd::prelude::*;

verus! {

/// A status code outside the range 100 to 999 was given.
#[derive(Clone, Copy, Debug, PartialEq, Eq, Structural)]
pub struct InvalidStatusCode;

/// An HTTP status code: a number from 100 to 999.
#[derive(Clone, Copy, Debug, PartialEq, Eq, Structural, Hash)]
pub struct StatusCode {
    code: u16,
}

/// Whether a code number lies in the range of valid status codes.
pub open spec fn is_valid_code(code: int) -> bool {
    100 <= code <= 999
}

/// Whether a code number is a success code (2xx).
pub open spec fn is_success_code(code: int) -> bool {
    200 <= code < 300
}

impl View for StatusCode {
    type V = u16;

    closed spec fn view(&self) -> u16 {
        self.code
    }
}

impl StatusCode {
    #[verifier::type_invariant]
    spec fn inv(self) -> bool {
        is_valid_code(self.code as int)
    }

    /// A status code is determined by its number.
    pub proof fn lemma_number_determines(a: StatusCode, b: StatusCode)
        ensures
            a@ == b@ ==> a == b,
    {
    }

    pub(crate) fn new(code: u16) -> (s: StatusCode)
        requires
            is_valid_code(code as int),
        ensures
            s@ == code,
    {
        StatusCode { code }
    }

    /// Converts a number into a status code; numbers outside 100 to 999 are refused.
    pub fn from_u16(code: u16) -> (r: Result<StatusCode, InvalidStatusCode>)
        ensures
            r is Ok <==> is_valid_code(code as int),
            r matches Ok(s) ==> s@ == code,
    {
        if 100 <= code && code < 1000 {
            Ok(StatusCode { code })
        } else {
            Err(InvalidStatusCode)
        }
    }

    /// The code as a number.
    pub fn as_u16(&self) -> (r: u16)
        ensures
            r == self@,
            is_valid_code(r as int),
    {
        proof {
            use_type_invariant(self);
        }
        self.code
    }

    /// Whether the code is in the 2xx range.
    pub fn is_success(&self) -> (r: bool)
        ensures
            r == is_success_code(self@ as int),
    {
        200 <= self.code && self.code < 300
    }
}

} // verus!
