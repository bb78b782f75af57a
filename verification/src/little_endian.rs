//! Unsigned 64-bit integers as eight bytes, least significant byte first.

use vstd::prelude::*;

verus! {

/// The number that eight bytes stand for, the first byte counting least.
pub open spec fn u64_from_le(bytes: Seq<u8>) -> int
    recommends
        bytes.len() == 8,
{
    bytes[0] as int
        + bytes[1] as int * 0x100
        + bytes[2] as int * 0x1_0000
        + bytes[3] as int * 0x100_0000
        + bytes[4] as int * 0x1_0000_0000
        + bytes[5] as int * 0x100_0000_0000
        + bytes[6] as int * 0x1_0000_0000_0000
        + bytes[7] as int * 0x100_0000_0000_0000
}

/// The eight bytes that stand for `value`, the first byte counting least.
pub open spec fn u64_to_le(value: u64) -> Seq<u8> {
    seq![
        (value % 0x100) as u8,
        (value / 0x100 % 0x100) as u8,
        (value / 0x1_0000 % 0x100) as u8,
        (value / 0x100_0000 % 0x100) as u8,
        (value / 0x1_0000_0000 % 0x100) as u8,
        (value / 0x100_0000_0000 % 0x100) as u8,
        (value / 0x1_0000_0000_0000 % 0x100) as u8,
        (value / 0x100_0000_0000_0000 % 0x100) as u8,
    ]
}

/// Eight bytes always stand for a number that fits in 64 bits.
pub proof fn lemma_u64_from_le_bounds(bytes: Seq<u8>)
    requires
        bytes.len() == 8,
    ensures
        0 <= u64_from_le(bytes) <= u64::MAX,
{
}

/// Decoding undoes encoding.
pub proof fn lemma_u64_from_to_le(value: u64)
    ensures
        u64_to_le(value).len() == 8,
        u64_from_le(u64_to_le(value)) == value,
{
    assert(value == (value % 0x100) + (value / 0x100 % 0x100) * 0x100 + (value / 0x1_0000 % 0x100)
        * 0x1_0000 + (value / 0x100_0000 % 0x100) * 0x100_0000 + (value / 0x1_0000_0000 % 0x100)
        * 0x1_0000_0000 + (value / 0x100_0000_0000 % 0x100) * 0x100_0000_0000 + (value
        / 0x1_0000_0000_0000 % 0x100) * 0x1_0000_0000_0000 + (value / 0x100_0000_0000_0000 % 0x100)
        * 0x100_0000_0000_0000) by (bit_vector);
}

/// Encoding undoes decoding.
pub proof fn lemma_u64_to_from_le(bytes: Seq<u8>)
    requires
        bytes.len() == 8,
    ensures
        u64_to_le(u64_from_le(bytes) as u64) == bytes,
{
    lemma_u64_from_le_bounds(bytes);
    let value = u64_from_le(bytes) as u64;
    let (b0, b1, b2, b3) = (bytes[0], bytes[1], bytes[2], bytes[3]);
    let (b4, b5, b6, b7) = (bytes[4], bytes[5], bytes[6], bytes[7]);
    assert(value == b0 + b1 * 0x100 + b2 * 0x1_0000 + b3 * 0x100_0000 + b4 * 0x1_0000_0000 + b5
        * 0x100_0000_0000 + b6 * 0x1_0000_0000_0000 + b7 * 0x100_0000_0000_0000);
    assert(value % 0x100 == b0 && value / 0x100 % 0x100 == b1 && value / 0x1_0000 % 0x100 == b2
        && value / 0x100_0000 % 0x100 == b3 && value / 0x1_0000_0000 % 0x100 == b4 && value
        / 0x100_0000_0000 % 0x100 == b5 && value / 0x1_0000_0000_0000 % 0x100 == b6 && value
        / 0x100_0000_0000_0000 % 0x100 == b7) by (bit_vector)
        requires
            value == b0 + b1 * 0x100 + b2 * 0x1_0000 + b3 * 0x100_0000 + b4 * 0x1_0000_0000 + b5
                * 0x100_0000_0000 + b6 * 0x1_0000_0000_0000 + b7 * 0x100_0000_0000_0000,
    ;
    assert(u64_to_le(value) =~= bytes);
}

/// Reads the 64-bit number stored at `at`.
pub fn read_u64(src: &[u8], at: usize) -> (value: u64)
    requires
        at + 8 <= src@.len(),
    ensures
        value == u64_from_le(src@.subrange(at as int, at + 8)),
{
    let b0: u64 = src[at] as u64;
    let b1: u64 = src[at + 1] as u64;
    let b2: u64 = src[at + 2] as u64;
    let b3: u64 = src[at + 3] as u64;
    let b4: u64 = src[at + 4] as u64;
    let b5: u64 = src[at + 5] as u64;
    let b6: u64 = src[at + 6] as u64;
    let b7: u64 = src[at + 7] as u64;
    b0 + b1 * 0x100 + b2 * 0x1_0000 + b3 * 0x100_0000 + b4 * 0x1_0000_0000 + b5 * 0x100_0000_0000
        + b6 * 0x1_0000_0000_0000 + b7 * 0x100_0000_0000_0000
}

/// Stores `value` in the eight bytes at `at` and leaves the others alone.
pub fn write_u64(dst: &mut [u8], at: usize, value: u64)
    requires
        at + 8 <= old(dst)@.len(),
    ensures
        final(dst)@ == old(dst)@.subrange(0, at as int) + u64_to_le(value) + old(dst)@.subrange(
            at + 8,
            old(dst)@.len() as int,
        ),
{
    dst[at] = (value % 0x100) as u8;
    dst[at + 1] = (value / 0x100 % 0x100) as u8;
    dst[at + 2] = (value / 0x1_0000 % 0x100) as u8;
    dst[at + 3] = (value / 0x100_0000 % 0x100) as u8;
    dst[at + 4] = (value / 0x1_0000_0000 % 0x100) as u8;
    dst[at + 5] = (value / 0x100_0000_0000 % 0x100) as u8;
    dst[at + 6] = (value / 0x1_0000_0000_0000 % 0x100) as u8;
    dst[at + 7] = (value / 0x100_0000_0000_0000 % 0x100) as u8;
    assert(dst@ =~= old(dst)@.subrange(0, at as int) + u64_to_le(value) + old(dst)@.subrange(
        at + 8,
        old(dst)@.len() as int,
    ));
}

} // verus!
