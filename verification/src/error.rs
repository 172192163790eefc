//! The error taxonomy shared by every fallible operation of the library.

use crate::algorithm::Algorithm;
use vstd::prelude::*;

verus! {

/// Why an operation failed.
#[derive(Debug)]
pub enum OTPError {
    /// The secret string is not valid base32.
    Base32DecodeError,
    /// The secret's length is incompatible with the keyed-hash construction
    /// for the named algorithm.
    HmacKeyLengthError(Algorithm),
    /// A field required for the requested key-URI type is missing.
    ToKeyUriError(String),
    /// A catch-all for wrapped collaborator failures.
    Error(String),
}

impl OTPError {
    /// Wraps an arbitrary message as a catch-all error.
    pub fn new(err: String) -> (r: Self)
        ensures
            r matches OTPError::Error(m) && m@ == err@,
    {
        OTPError::Error(err)
    }
}

} // verus!
