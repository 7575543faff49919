//! The random source of a search: the operating system, through `rand`.

use rand::Error as RandError;
use vstd::prelude::*;
use crate::NONCE_SIZE;

verus! {

/// `rand::Error`, the error of a random source: an opaque value that a
/// search hands on to its caller.
#[verifier::external_type_specification]
#[verifier::external_body]
pub struct ExRandError(RandError);

/// `rand::Fill::try_fill` on a nonce, from `rand::rngs::OsRng`: the
/// operating system's random bytes, or the error with which it refused
/// them. Nothing is claimed of the bytes that the call leaves in `nonce`,
/// nor of whether it succeeds: a search has to cope with every nonce and
/// with every failure. Early after boot the call waits until the system's
/// source is seeded.
#[verifier::external_body]
pub(crate) fn try_fill(nonce: &mut [u8; NONCE_SIZE]) -> (filled: Result<(), RandError>) {
    rand::Fill::try_fill(nonce, &mut rand::rngs::OsRng)
}

} // verus!
