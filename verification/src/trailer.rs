//! The size field that ends a gzip member.
//!
//! A gzip member closes with eight bytes: a CRC32 of the uncompressed data,
//! then ISIZE, the length of the uncompressed data modulo 2^32, least
//! significant byte first.

use vstd::prelude::*;

verus! {

/// The number that four ISIZE bytes stand for: `packed[0]` counts ones,
/// `packed[1]` counts 256s, and so on.
pub open spec fn isize_value(packed: Seq<u8>) -> int
    recommends
        packed.len() == 4,
{
    packed[0] + packed[1] * 0x100 + packed[2] * 0x1_0000 + packed[3] * 0x100_0000
}

/// Unpacks the ISIZE field of a gzip member as a 64-bit integer.
///
/// The result is the uncompressed length modulo 2^32: it is below 2^32
/// whatever the bytes are, and a payload of 4 GiB or more aliases a smaller
/// one.
pub fn unpack_isize(packed: [u8; 4]) -> (size: u64)
    ensures
        size == isize_value(packed@),
        size < 0x1_0000_0000,
{
    let b0: u32 = packed[0] as u32;
    let b1: u32 = packed[1] as u32;
    let b2: u32 = packed[2] as u32;
    let b3: u32 = packed[3] as u32;
    assert(b1 << 8 == b1 * 0x100) by (bit_vector)
        requires
            b1 < 0x100,
    ;
    assert(b2 << 16 == b2 * 0x1_0000) by (bit_vector)
        requires
            b2 < 0x100,
    ;
    assert(b3 << 24 == b3 * 0x100_0000) by (bit_vector)
        requires
            b3 < 0x100,
    ;
    let unpacked32: u32 = b0 + (b1 << 8) + (b2 << 16) + (b3 << 24);
    unpacked32 as u64
}

/// The value is the four bytes laid side by side in 32 bits, the first one
/// lowest: `packed[0] | packed[1] << 8 | packed[2] << 16 | packed[3] << 24`.
pub proof fn lemma_isize_is_bytes_side_by_side(packed: Seq<u8>)
    requires
        packed.len() == 4,
    ensures
        isize_value(packed) == (packed[0] as u32) | (packed[1] as u32) << 8 | (packed[2] as u32)
            << 16 | (packed[3] as u32) << 24,
{
    let b0 = packed[0] as u32;
    let b1 = packed[1] as u32;
    let b2 = packed[2] as u32;
    let b3 = packed[3] as u32;
    assert(b0 + b1 * 0x100 + b2 * 0x1_0000 + b3 * 0x100_0000 == b0 | b1 << 8 | b2 << 16 | b3 << 24)
        by (bit_vector)
        requires
            b0 < 0x100,
            b1 < 0x100,
            b2 < 0x100,
            b3 < 0x100,
    ;
}

/// Four bytes that differ somewhere stand for different sizes.
pub proof fn lemma_isize_tells_bytes_apart(one: Seq<u8>, other: Seq<u8>)
    requires
        one.len() == 4,
        other.len() == 4,
        isize_value(one) == isize_value(other),
    ensures
        one == other,
{
}

} // verus!
