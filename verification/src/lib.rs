//! Streaming cryptographic adapters.
//!
//! The library wraps a pull-based byte-chunk producer so that the caller sees
//! the same flow-control behaviour while the data is transparently encrypted,
//! decrypted or hashed, and offers a random-byte primitive whose blocking
//! call a worker pool can carry.  The underlying cryptographic engine is
//! OpenSSL.

pub mod cipher;
pub mod hash;
pub mod random;
pub mod stream;

mod error;

pub use crate::error::Error;
