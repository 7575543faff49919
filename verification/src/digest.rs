//! The digest of a nonce and a payload: BLAKE3 over the nonce followed by the
//! payload.

use vstd::prelude::*;
use crate::NONCE_SIZE;

verus! {

/// The number of bytes in a digest.
pub const DIGEST_SIZE: usize = 32;

/// `blake3::Hasher`, the state of a hash that takes its input piece by
/// piece: an opaque value, known by the two names below.
#[verifier::external_type_specification]
#[verifier::external_body]
pub struct ExHasher(blake3::Hasher);

/// The BLAKE3 hash of `input` in the default mode, with its default length
/// of 32 bytes: what `blake3::Hasher::finalize` returns for a hasher that
/// was made by `blake3::Hasher::new` and then given `input`.
pub uninterp spec fn blake3_hash(input: Seq<u8>) -> [u8; 32];

/// The bytes that a hasher has been given since it was made, in the order in
/// which it got them.
pub uninterp spec fn hasher_input(hasher: blake3::Hasher) -> Seq<u8>;

/// Whether a hasher computes the default hash function from the start of its
/// input: it was made by `blake3::Hasher::new`, not for a key or a key
/// derivation, and no input offset was set on it.
pub uninterp spec fn hasher_is_plain(hasher: blake3::Hasher) -> bool;

/// `blake3::Hasher::new`: a hasher for the default hash function that has
/// been given no input yet.
#[verifier::external_body]
fn hasher_new() -> (hasher: blake3::Hasher)
    ensures
        hasher_is_plain(hasher),
        hasher_input(hasher) == Seq::<u8>::empty(),
{
    blake3::Hasher::new()
}

/// `blake3::Hasher::update`: the hasher takes the bytes of `input` behind
/// those that it already has, and stays in its mode.
#[verifier::external_body]
fn hasher_update(hasher: &mut blake3::Hasher, input: &[u8])
    requires
        hasher_is_plain(*old(hasher)),
    ensures
        hasher_is_plain(*final(hasher)),
        hasher_input(*final(hasher)) == hasher_input(*old(hasher)) + input@,
{
    hasher.update(input);
}

/// `blake3::Hasher::finalize`, and `blake3::Hash::as_bytes` on what it
/// returns: the BLAKE3 hash of all the bytes that the hasher was given.
#[verifier::external_body]
fn hasher_finalize(hasher: &blake3::Hasher) -> (hash: [u8; DIGEST_SIZE])
    requires
        hasher_is_plain(*hasher),
    ensures
        hash == blake3_hash(hasher_input(*hasher)),
{
    *hasher.finalize().as_bytes()
}

/// The digest that a nonce has with a payload: the BLAKE3 hash of the bytes
/// of the nonce followed by those of the payload.
pub open spec fn digest_of(payload: Seq<u8>, nonce: Seq<u8>) -> [u8; 32] {
    blake3_hash(nonce + payload)
}

/// Computes the digest of `nonce` with the payload `bytes`.
pub fn digest(bytes: &[u8], nonce: &[u8; NONCE_SIZE]) -> (hash: [u8; DIGEST_SIZE])
    ensures
        hash == digest_of(bytes@, nonce@),
{
    let mut hasher = hasher_new();
    hasher_update(&mut hasher, nonce.as_slice());
    hasher_update(&mut hasher, bytes);
    assert(Seq::<u8>::empty() + nonce@ + bytes@ =~= nonce@ + bytes@);
    hasher_finalize(&hasher)
}

} // verus!
