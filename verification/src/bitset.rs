//! Bit sets packed into bytes, least significant bit first.
//!
//! Bit `index` of a byte string lives in byte `index / 8` at position
//! `index % 8`. The HID reports of this crate use that layout for key,
//! button and LED state.

use vstd::prelude::*;

verus! {

/// Whether bit `k` of `b` is set.
pub open spec fn byte_bit(b: u8, k: u8) -> bool {
    (b >> k) & 1 == 1
}

/// Whether bit `index` of the packed bit set `bytes` is set. Indices outside
/// the bit set read as clear.
pub open spec fn bit_at(bytes: Seq<u8>, index: int) -> bool {
    0 <= index < 8 * bytes.len() && byte_bit(bytes[index / 8], (index % 8) as u8)
}

/// `b` with bit `k` set to `on`.
pub open spec fn byte_with_bit(b: u8, k: u8, on: bool) -> u8 {
    if on {
        b | (1u8 << k)
    } else {
        b & !(1u8 << k)
    }
}

/// `bytes` with bit `index` set to `on`; unchanged when `index` lies outside
/// the bit set.
pub open spec fn with_bit(bytes: Seq<u8>, index: int, on: bool) -> Seq<u8> {
    if 0 <= index < 8 * bytes.len() {
        bytes.update(index / 8, byte_with_bit(bytes[index / 8], (index % 8) as u8, on))
    } else {
        bytes
    }
}

/// Writing one bit of a byte changes that bit and no other, and the byte
/// differs afterwards exactly when the bit had the other value.
pub proof fn lemma_byte_with_bit(b: u8, k: u8, on: bool)
    requires
        k < 8,
    ensures
        byte_bit(byte_with_bit(b, k, on), k) == on,
        forall|j: u8| j < 8 && j != k ==> byte_bit(byte_with_bit(b, k, on), j) == byte_bit(b, j),
        (byte_with_bit(b, k, on) != b) == (byte_bit(b, k) != on),
{
    assert(((b | (1u8 << k)) >> k) & 1 == 1) by (bit_vector)
        requires
            k < 8,
    ;
    assert(((b & !(1u8 << k)) >> k) & 1 == 0) by (bit_vector)
        requires
            k < 8,
    ;
    assert(forall|j: u8|
        j < 8 && j != k ==> ((b | (1u8 << k)) >> j) & 1 == (b >> j) & 1) by (bit_vector)
        requires
            k < 8,
    ;
    assert(forall|j: u8|
        j < 8 && j != k ==> ((b & !(1u8 << k)) >> j) & 1 == (b >> j) & 1) by (bit_vector)
        requires
            k < 8,
    ;
    assert(((b | (1u8 << k)) != b) == ((b >> k) & 1 != 1)) by (bit_vector)
        requires
            k < 8,
    ;
    assert(((b & !(1u8 << k)) != b) == ((b >> k) & 1 == 1)) by (bit_vector)
        requires
            k < 8,
    ;
    assert((b >> k) & 1 == 0 || (b >> k) & 1 == 1) by (bit_vector);
}

/// Writing one bit of a packed bit set changes that bit and no other.
pub proof fn lemma_with_bit(bytes: Seq<u8>, index: int, on: bool)
    ensures
        with_bit(bytes, index, on).len() == bytes.len(),
        forall|i: int|
            #[trigger] bit_at(with_bit(bytes, index, on), i) == if i == index && 0 <= index < 8
                * bytes.len() {
                on
            } else {
                bit_at(bytes, i)
            },
        (with_bit(bytes, index, on) != bytes) == (0 <= index < 8 * bytes.len() && bit_at(
            bytes,
            index,
        ) != on),
{
    if 0 <= index < 8 * bytes.len() {
        let k = (index % 8) as u8;
        let b = bytes[index / 8];
        lemma_byte_with_bit(b, k, on);
        let after = with_bit(bytes, index, on);
        assert forall|i: int| #[trigger]
            bit_at(after, i) == if i == index {
                on
            } else {
                bit_at(bytes, i)
            } by {
            if 0 <= i < 8 * bytes.len() && i != index && i / 8 == index / 8 {
                let j = (i % 8) as u8;
                assert(j != k);
            }
        }
        if after == bytes {
            assert(after[index / 8] == bytes[index / 8]);
        } else {
            assert(!(after =~= bytes));
        }
    }
}

/// Reads bit `index` of `bytes`; an index past the end reads as clear.
pub fn test_bit<const N: usize>(bytes: &[u8; N], index: u16) -> (set: bool)
    ensures
        set == bit_at(bytes@, index as int),
{
    let idx: usize = (index / 8) as usize;
    if idx < N {
        let k: u8 = (index % 8) as u8;
        (bytes[idx] >> k) & 1 == 1
    } else {
        false
    }
}

/// Writes bit `index` of `bytes` and reports whether the bit set changed; an
/// index past the end changes nothing.
pub fn assign_bit<const N: usize>(bytes: &mut [u8; N], index: u16, on: bool) -> (changed: bool)
    ensures
        final(bytes)@ == with_bit(old(bytes)@, index as int, on),
        changed == (bit_at(old(bytes)@, index as int) != on && index < 8 * N),
{
    let idx: usize = (index / 8) as usize;
    if idx < N {
        let k: u8 = (index % 8) as u8;
        let prev: u8 = bytes[idx];
        let next: u8 = if on {
            prev | (1u8 << k)
        } else {
            prev & !(1u8 << k)
        };
        proof {
            lemma_byte_with_bit(prev, k, on);
        }
        bytes[idx] = next;
        prev != next
    } else {
        false
    }
}

} // verus!
