//! The error taxonomy of authorization decisions.

use vstd::prelude::*;

verus! {

/// Terminal outcome of a failed request.
///
/// Every authorization failure is the single uniform `NotAllowed`,
/// whichever sub-check failed: the guard does not leak which bit or tier
/// was missing.  `NotFound` means an identity did not resolve (token,
/// account id or group id).  `Other` is a downstream failure during the
/// commit step of an otherwise-allowed operation, and also covers a
/// dependency lookup that failed: a decision is never made on missing
/// data.
#[derive(Clone, Copy, PartialEq, Eq, Structural, Debug)]
pub enum AuthError {
    NotAllowed,
    NotFound,
    Other,
}

impl AuthError {
    /// The uniform user-visible message of the error kind.
    pub open spec fn spec_message(self) -> Seq<char> {
        match self {
            AuthError::NotAllowed => "not allowed"@,
            AuthError::NotFound => "not found"@,
            AuthError::Other => "internal error"@,
        }
    }

    /// The uniform user-visible message: the error kind and nothing else.
    pub fn message(&self) -> (r: &'static str)
        ensures
            r@ == self.spec_message(),
    {
        match self {
            AuthError::NotAllowed => "not allowed",
            AuthError::NotFound => "not found",
            AuthError::Other => "internal error",
        }
    }
}

} // verus!
