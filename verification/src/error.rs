//! Why a search fails.

use vstd::prelude::*;
use vstd::std_specs::convert::FromSpecImpl;

verus! {

/// Why a search ended without a proof of work.
#[derive(Debug)]
pub enum Error {
    /// The random source failed to give a nonce; its own error is inside.
    Rand(rand::Error),
    /// More nonces failed than the meter allows.
    MeterOverdrawn,
}

impl From<rand::Error> for Error {
    fn from(error: rand::Error) -> (wrapped: Error) {
        Error::Rand(error)
    }
}

impl FromSpecImpl<rand::Error> for Error {
    open spec fn obeys_from_spec() -> bool {
        true
    }

    open spec fn from_spec(error: rand::Error) -> Error {
        Error::Rand(error)
    }
}

} // verus!
