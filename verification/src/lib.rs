//! Proof of work over BLAKE3.
//!
//! A proof of work for a payload and a cost is a nonce of [`NONCE_SIZE`] bytes
//! such that the BLAKE3 digest of the nonce followed by the payload starts
//! with at least `cost` zero bits. [`search`] looks for such a nonce by
//! drawing random ones, [`verify`] checks one, and [`leading_zeros`] counts
//! the zero bits at the start of a byte string.

use vstd::prelude::*;

pub mod bits;
pub mod digest;
pub mod entropy;
pub mod error;
pub mod work;

pub use crate::bits::leading_zeros;
pub use crate::error::Error;
pub use crate::work::{search, verify};

verus! {

/// The number of bytes in a nonce.
pub const NONCE_SIZE: usize = 10;

} // verus!
