//! The error type shared by every component of the library.

use vstd::prelude::*;

verus! {

/// Declares openssl's error-stack type so that library signatures can carry
/// it; relies on `openssl::error::ErrorStack` being an opaque, cloneable list
/// of engine-level errors.
#[verifier::external_type_specification]
#[verifier::external_body]
pub struct ExErrorStack(openssl::error::ErrorStack);

/// Relies on `openssl::error::ErrorStack`'s derived `Clone`, used when an
/// adapter stores a fault to report it again on later pulls.
pub assume_specification[ <openssl::error::ErrorStack as Clone>::clone ](
    stack: &openssl::error::ErrorStack,
) -> openssl::error::ErrorStack;

/// Why a library operation failed.
///
/// Key and IV mismatches are construction-time configuration errors; an
/// `Engine` error is a fault reported by the underlying cryptographic engine
/// while streaming, and is fatal to the adapter instance that saw it.
#[derive(Debug, Clone)]
pub enum Error {
    /// The key buffer's length does not match the algorithm's requirement.
    KeyLength { expected: usize, actual: usize },
    /// The IV buffer's length does not match the algorithm's requirement
    /// (`expected` is zero when the algorithm takes no IV).
    IvLength { expected: usize, actual: usize },
    /// The underlying cryptographic engine reported a fault.
    Engine(openssl::error::ErrorStack),
}

impl Error {
    /// An error of the same kind, for reporting a recorded fault again: the
    /// configuration variants come back equal, an engine fault comes back as
    /// an engine fault carrying a copy of the provider's error stack.
    pub fn duplicate(&self) -> (r: Error)
        ensures
            r is Engine <==> self is Engine,
            !(self is Engine) ==> r == *self,
    {
        match self {
            Error::KeyLength { expected, actual } => Error::KeyLength {
                expected: *expected,
                actual: *actual,
            },
            Error::IvLength { expected, actual } => Error::IvLength {
                expected: *expected,
                actual: *actual,
            },
            Error::Engine(stack) => Error::Engine(stack.clone()),
        }
    }
}

} // verus!
