//! Proofs of work: checking one, and searching for one.

use vstd::prelude::*;
use crate::bits::{leading_zero_bits, leading_zeros, lemma_leading_zero_bits_bound};
use crate::digest::{digest, digest_of, DIGEST_SIZE};
use crate::entropy::try_fill;
use crate::error::Error;
use crate::NONCE_SIZE;

verus! {

/// What trying one nonce does to a search.
#[derive(Debug, Clone, Copy, PartialEq, Eq, Structural)]
pub enum Attempt {
    /// The nonce is a proof of work, and the search ends with it.
    Proof,
    /// The nonce is none, and the search goes on with this many failures
    /// counted.
    Again(u32),
    /// The nonce is none, and with it more nonces have failed than the
    /// meter allows.
    Overdrawn,
}

/// Whether `nonce` is a proof of work for `payload` at `cost`: the digest of
/// the nonce with the payload starts with at least `cost` zero bits.
pub open spec fn satisfies(payload: Seq<u8>, nonce: Seq<u8>, cost: nat) -> bool {
    leading_zero_bits(digest_of(payload, nonce)@) >= cost
}

/// What trying one more nonce does to a search that has counted `failures`
/// failed nonces so far and may count up to `meter` of them.
pub open spec fn attempt_of(
    payload: Seq<u8>,
    nonce: Seq<u8>,
    cost: nat,
    meter: u32,
    failures: u32,
) -> Attempt {
    if satisfies(payload, nonce, cost) {
        Attempt::Proof
    } else if failures >= meter {
        Attempt::Overdrawn
    } else {
        Attempt::Again((failures + 1) as u32)
    }
}

/// Verification depends on nothing but the bytes of the payload, the bytes
/// of the nonce and the cost: two checks that agree in these agree in their
/// result.
pub proof fn lemma_verify_deterministic(
    payload: Seq<u8>,
    nonce: Seq<u8>,
    cost: nat,
    same_payload: Seq<u8>,
    same_nonce: Seq<u8>,
    same_cost: nat,
)
    requires
        payload.len() == same_payload.len(),
        forall|i: int| 0 <= i < payload.len() ==> payload[i] == same_payload[i],
        nonce.len() == same_nonce.len(),
        forall|i: int| 0 <= i < nonce.len() ==> nonce[i] == same_nonce[i],
        cost == same_cost,
    ensures
        satisfies(payload, nonce, cost) == satisfies(same_payload, same_nonce, same_cost),
{
    assert(payload =~= same_payload);
    assert(nonce =~= same_nonce);
}

/// A proof of work at one cost is a proof of work at every lower cost.
pub proof fn lemma_verify_monotonic(payload: Seq<u8>, nonce: Seq<u8>, cost: nat, lower: nat)
    requires
        satisfies(payload, nonce, cost),
        lower <= cost,
    ensures
        satisfies(payload, nonce, lower),
{
}

/// At cost zero every nonce is a proof of work.
pub proof fn lemma_zero_cost(payload: Seq<u8>, nonce: Seq<u8>)
    ensures
        satisfies(payload, nonce, 0),
{
}

/// No nonce is a proof of work at a cost above the number of bits in a
/// digest.
pub proof fn lemma_cost_beyond_digest(payload: Seq<u8>, nonce: Seq<u8>, cost: nat)
    requires
        cost > 8 * DIGEST_SIZE,
    ensures
        !satisfies(payload, nonce, cost),
{
    lemma_leading_zero_bits_bound(digest_of(payload, nonce)@);
}

/// Checks whether `nonce` is a proof of work for `bytes` at `cost`.
pub fn verify(bytes: &[u8], nonce: [u8; NONCE_SIZE], cost: u32) -> (valid: bool)
    ensures
        valid == satisfies(bytes@, nonce@, cost as nat),
        cost > 8 * DIGEST_SIZE ==> !valid,
{
    let hash = digest(bytes, &nonce);
    proof {
        lemma_leading_zero_bits_bound(hash@);
    }
    leading_zeros(hash.as_slice()) >= cost
}

/// Tries `nonce` in a search for a proof of work for `bytes` at `cost`, in
/// which `failures` nonces have failed before it. A nonce that fails is
/// counted, and the meter is overdrawn once more than `meter` have failed.
pub fn attempt(bytes: &[u8], nonce: [u8; NONCE_SIZE], cost: u32, meter: u32, failures: u32) -> (next:
    Attempt)
    ensures
        next == attempt_of(bytes@, nonce@, cost as nat, meter, failures),
{
    if verify(bytes, nonce, cost) {
        Attempt::Proof
    } else if failures >= meter {
        Attempt::Overdrawn
    } else {
        Attempt::Again(failures + 1)
    }
}

/// Searches for a proof of work for `bytes` at `cost`.
///
/// Each nonce is drawn afresh from the operating system's random source and
/// tried with [`attempt`]. The search ends with the first nonce that is a
/// proof of work, with the random source's error as soon as a draw fails, or
/// with [`Error::MeterOverdrawn`] once more than `meter` nonces have failed.
pub fn search(bytes: &[u8], cost: u32, meter: u32) -> (found: Result<[u8; NONCE_SIZE], Error>)
    ensures
        match found {
            Ok(nonce) => satisfies(bytes@, nonce@, cost as nat),
            Err(Error::MeterOverdrawn) => exists|tried: Seq<u8>|
                tried.len() == NONCE_SIZE && !#[trigger] satisfies(bytes@, tried, cost as nat),
            Err(Error::Rand(_)) => true,
        },
        cost == 0 ==> !(found matches Err(Error::MeterOverdrawn)),
        cost > 8 * DIGEST_SIZE ==> found is Err,
{
    let mut nonce = [0u8; NONCE_SIZE];
    let mut failures: u32 = 0;
    loop
        invariant
            failures <= meter,
        decreases meter - failures,
    {
        match try_fill(&mut nonce) {
            Ok(()) => {},
            Err(error) => {
                return Err(Error::from(error));
            },
        }
        match attempt(bytes, nonce, cost, meter, failures) {
            Attempt::Proof => {
                proof {
                    if cost > 8 * DIGEST_SIZE {
                        lemma_cost_beyond_digest(bytes@, nonce@, cost as nat);
                    }
                }
                return Ok(nonce);
            },
            Attempt::Again(counted) => {
                failures = counted;
            },
            Attempt::Overdrawn => {
                return Err(Error::MeterOverdrawn);
            },
        }
    }
}

} // verus!
