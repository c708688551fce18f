//! HTTP status codes as the backend reports them.

use vstd::prelude::*;

verus! {

/// What `http::StatusCode` prints for the status code `code`.
pub uninterp spec fn status_display(code: u16) -> Seq<char>;

/// Calls `http::StatusCode::from_u16` and prints the status with its
/// `Display` impl: the number, a space, and the canonical reason phrase or a
/// placeholder. The contract only names that text. `from_u16` accepts exactly
/// the codes from 100 to 999, so the `unwrap` cannot fail.
#[verifier::external_body]
fn display_status(code: u16) -> (text: String)
    requires
        100 <= code <= 999,
    ensures
        text@ == status_display(code),
{
    http::StatusCode::from_u16(code).unwrap().to_string()
}

/// An HTTP status code: a number from 100 to 999.
#[derive(Clone, Copy, Debug, PartialEq, Eq, Structural)]
pub struct StatusCode {
    code: u16,
}

impl View for StatusCode {
    type V = u16;

    closed spec fn view(&self) -> u16 {
        self.code
    }
}

/// Success family: 200 to 299.
pub open spec fn is_success_code(code: u16) -> bool {
    200 <= code < 300
}

/// Redirection family: 300 to 399.
pub open spec fn is_redirection_code(code: u16) -> bool {
    300 <= code < 400
}

/// Client error family: 400 to 499.
pub open spec fn is_client_error_code(code: u16) -> bool {
    400 <= code < 500
}

/// The codes that a `StatusCode` can hold.
pub open spec fn is_status_code(code: u16) -> bool {
    100 <= code <= 999
}

impl StatusCode {
    #[verifier::type_invariant]
    closed spec fn in_range(self) -> bool {
        is_status_code(self.code)
    }

    /// The status code `code`, if it is one: a number from 100 to 999.
    pub fn from_u16(code: u16) -> (r: Option<StatusCode>)
        ensures
            r is Some <==> is_status_code(code),
            r matches Some(s) ==> s@ == code,
    {
        if 100 <= code && code <= 999 {
            Some(StatusCode { code })
        } else {
            None
        }
    }

    /// The number of this status code.
    pub fn as_u16(&self) -> (code: u16)
        ensures
            code == self@,
            is_status_code(code),
    {
        proof {
            use_type_invariant(self);
        }
        self.code
    }

    /// Whether the status is in the success family.
    pub fn is_success(&self) -> (b: bool)
        ensures
            b == is_success_code(self@),
    {
        200 <= self.code && self.code < 300
    }

    /// Whether the status is in the redirection family.
    pub fn is_redirection(&self) -> (b: bool)
        ensures
            b == is_redirection_code(self@),
    {
        300 <= self.code && self.code < 400
    }

    /// Whether the status is in the client error family.
    pub fn is_client_error(&self) -> (b: bool)
        ensures
            b == is_client_error_code(self@),
    {
        400 <= self.code && self.code < 500
    }

    /// The status as it is printed in messages.
    pub fn text(&self) -> (text: String)
        ensures
            text@ == status_display(self@),
    {
        proof {
            use_type_invariant(self);
        }
        display_status(self.code)
    }
}

} // verus!
