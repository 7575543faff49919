//! Counting the zero bits at the start of a byte string.

use vstd::prelude::*;
use vstd::std_specs::bits::{axiom_u8_leading_zeros, u8_leading_zeros};

verus! {

/// The number of zero bits in front of the highest set bit of `b`, and 8 for
/// the zero byte: the count is `k` exactly when `b` lies below `2^(8 - k)`
/// and, unless `k` is 8, at or above `2^(7 - k)`.
pub open spec fn byte_leading_zeros(b: u8) -> nat {
    if b >= 0x80 {
        0
    } else if b >= 0x40 {
        1
    } else if b >= 0x20 {
        2
    } else if b >= 0x10 {
        3
    } else if b >= 0x08 {
        4
    } else if b >= 0x04 {
        5
    } else if b >= 0x02 {
        6
    } else if b >= 0x01 {
        7
    } else {
        8
    }
}

/// The number of consecutive zero bits at the start of `bytes`, read from the
/// most significant bit of the first byte on. A zero byte counts 8 and the
/// count goes on behind it; the first other byte adds its own leading zeros
/// and ends the count, as does the end of the sequence.
pub open spec fn leading_zero_bits(bytes: Seq<u8>) -> nat
    decreases bytes.len(),
{
    if bytes.len() == 0 {
        0
    } else if bytes[0] == 0 {
        8 + leading_zero_bits(bytes.drop_first())
    } else {
        byte_leading_zeros(bytes[0])
    }
}

/// Whether bit `index` of `b` is set, bit 0 being the most significant.
pub open spec fn byte_bit(b: u8, index: int) -> bool {
    (b >> ((7 - index) as u8)) & 1u8 == 1u8
}

/// Whether bit `index` of `bytes` is set, bit 0 being the most significant
/// bit of the first byte.
pub open spec fn bit(bytes: Seq<u8>, index: int) -> bool {
    byte_bit(bytes[index / 8], index % 8)
}

/// `byte_leading_zeros` is what `u8::leading_zeros` computes.
pub proof fn lemma_byte_leading_zeros_is_std(b: u8)
    ensures
        byte_leading_zeros(b) == u8_leading_zeros(b),
{
    axiom_u8_leading_zeros(b);
    let k: u8 = u8_leading_zeros(b) as u8;
    assert(byte_leading_zeros(b) == k) by {
        lemma_top_bit_bounds(b, k);
    }
}

/// A byte whose bit `7 - k` is set and which has nothing above that bit lies
/// between `2^(7 - k)` and `2^(8 - k)`.
proof fn lemma_top_bit_bounds(b: u8, k: u8)
    by (bit_vector)
    requires
        k <= 8,
        k == 8 <==> b == 0,
        k < 8 ==> (b >> ((7u8 - k) as u8)) & 1u8 != 0u8,
        b >> ((8u8 - k) as u8) == 0u8,
    ensures
        k == 0 ==> b >= 0x80,
        k == 1 ==> 0x40 <= b < 0x80,
        k == 2 ==> 0x20 <= b < 0x40,
        k == 3 ==> 0x10 <= b < 0x20,
        k == 4 ==> 0x08 <= b < 0x10,
        k == 5 ==> 0x04 <= b < 0x08,
        k == 6 ==> 0x02 <= b < 0x04,
        k == 7 ==> 0x01 <= b < 0x02,
{
}

/// The bits of a byte in front of its count of leading zeros are clear, and
/// the bit at the count, where the byte has one, is set.
pub proof fn lemma_byte_leading_zeros_bits(b: u8)
    ensures
        forall|index: int| 0 <= index < byte_leading_zeros(b) ==> !#[trigger] byte_bit(b, index),
        byte_leading_zeros(b) < 8 ==> byte_bit(b, byte_leading_zeros(b) as int),
{
    axiom_u8_leading_zeros(b);
    lemma_byte_leading_zeros_is_std(b);
    let k = byte_leading_zeros(b);
    assert forall|index: int| 0 <= index < k implies !#[trigger] byte_bit(b, index) by {
        let shift: u8 = (7 - index) as u8;
        assert((b >> shift) & 1u8 == 0u8);
    }
    if k < 8 {
        let top: u8 = b >> ((7 - k) as u8);
        assert(top & 1u8 == 0u8 || top & 1u8 == 1u8) by (bit_vector);
    }
}

/// The count is the place of the first set bit: every bit in front of it is
/// clear, and the bit at the count is set, unless the count is the whole
/// length in bits.
pub proof fn lemma_leading_zero_bits_is_first_set_bit(bytes: Seq<u8>)
    ensures
        forall|index: int| 0 <= index < leading_zero_bits(bytes) ==> !#[trigger] bit(bytes, index),
        leading_zero_bits(bytes) < 8 * bytes.len() ==> bit(
            bytes,
            leading_zero_bits(bytes) as int,
        ),
    decreases bytes.len(),
{
    if bytes.len() > 0 {
        lemma_byte_leading_zeros_bits(bytes[0]);
        if bytes[0] == 0 {
            let rest = bytes.drop_first();
            lemma_leading_zero_bits_is_first_set_bit(rest);
            lemma_leading_zero_bits_bound(rest);
            assert forall|index: int| 0 <= index < leading_zero_bits(bytes) implies !#[trigger] bit(
                bytes,
                index,
            ) by {
                if index >= 8 {
                    assert(rest[(index - 8) / 8] == bytes[index / 8]);
                    assert(!bit(rest, index - 8));
                }
            }
            if leading_zero_bits(bytes) < 8 * bytes.len() {
                let at = leading_zero_bits(rest) as int;
                assert(rest[at / 8] == bytes[(at + 8) / 8]);
                assert(bit(rest, at));
            }
        }
    }
}

/// The count never exceeds the number of bits in the sequence.
pub proof fn lemma_leading_zero_bits_bound(bytes: Seq<u8>)
    ensures
        leading_zero_bits(bytes) <= 8 * bytes.len(),
    decreases bytes.len(),
{
    if bytes.len() > 0 && bytes[0] == 0 {
        lemma_leading_zero_bits_bound(bytes.drop_first());
    }
}

/// A sequence of `n` zero bytes starts with `8 * n` zero bits.
pub proof fn lemma_all_zero_bytes(bytes: Seq<u8>)
    requires
        forall|i: int| 0 <= i < bytes.len() ==> bytes[i] == 0,
    ensures
        leading_zero_bits(bytes) == 8 * bytes.len(),
    decreases bytes.len(),
{
    if bytes.len() > 0 {
        lemma_all_zero_bytes(bytes.drop_first());
    }
}

/// Where the first byte is not zero, the count is that byte's own number of
/// leading zeros as `u8::leading_zeros` gives it, whatever follows the byte:
/// less than 8, none where the byte's top bit is set, and 7 for the byte 1.
pub proof fn lemma_first_byte_nonzero(bytes: Seq<u8>)
    requires
        bytes.len() > 0,
        bytes[0] != 0,
    ensures
        leading_zero_bits(bytes) == u8_leading_zeros(bytes[0]),
        leading_zero_bits(bytes) < 8,
        leading_zero_bits(bytes) == 0 <==> bytes[0] >= 0x80,
        leading_zero_bits(bytes) == 7 <==> bytes[0] == 1,
{
    lemma_byte_leading_zeros_is_std(bytes[0]);
}

/// Zero bytes in front add 8 bits each to the count of what follows them.
pub proof fn lemma_zero_prefix(bytes: Seq<u8>, n: int)
    requires
        0 <= n <= bytes.len(),
        forall|i: int| 0 <= i < n ==> bytes[i] == 0,
    ensures
        leading_zero_bits(bytes) == 8 * n + leading_zero_bits(bytes.skip(n)),
    decreases n,
{
    if n == 0 {
        assert(bytes.skip(0) =~= bytes);
    } else {
        let rest = bytes.drop_first();
        lemma_zero_prefix(rest, n - 1);
        assert(rest.skip(n - 1) =~= bytes.skip(n));
    }
}

/// Counts the zero bits at the start of `bytes`.
///
/// The count has to fit the result type: a slice of fewer than 2^29 bytes
/// always does.
pub fn leading_zeros(bytes: &[u8]) -> (count: u32)
    requires
        leading_zero_bits(bytes@) <= u32::MAX,
    ensures
        count == leading_zero_bits(bytes@),
{
    let mut count: u32 = 0;
    let mut i: usize = 0;
    while i < bytes.len()
        invariant
            i <= bytes.len(),
            count == 8 * i,
            forall|j: int| 0 <= j < i ==> bytes@[j] == 0,
            leading_zero_bits(bytes@) <= u32::MAX,
        decreases bytes.len() - i,
    {
        let lz: u32 = bytes[i].leading_zeros();
        proof {
            lemma_zero_prefix(bytes@, i as int);
            lemma_byte_leading_zeros_is_std(bytes[i as int]);
            assert(bytes@.skip(i as int)[0] == bytes[i as int]);
        }
        count += lz;
        if lz < 8 {
            return count;
        }
        i += 1;
    }
    proof {
        lemma_all_zero_bytes(bytes@);
    }
    count
}

} // verus!
