//! Utilities related to reading ID3v2 tags.

use vstd::prelude::*;

verus! {

/// The integer that four bytes denote when read as a 'synchsafe' quantity:
/// each byte is shifted to a position seven bits above its right neighbour
/// and the four are combined with bitwise or. No byte is masked, so a set
/// high bit lands on the lowest bit of the byte to its left.
pub open spec fn synchsafe_value(bytes: Seq<u8>) -> u32
    recommends
        bytes.len() == 4,
{
    (bytes[0] as u32) << 21 | (bytes[1] as u32) << 14 | (bytes[2] as u32) << 7 | (bytes[3] as u32)
}

/// What `synchsafe_to_u32` returns for a byte sequence of any length.
pub open spec fn spec_synchsafe_to_u32(bytes: Seq<u8>) -> Option<u32> {
    if bytes.len() == 4 {
        Some(synchsafe_value(bytes))
    } else {
        None
    }
}

/// The four bytes weighted by powers of 128, most significant first.
pub open spec fn septet_sum(bytes: Seq<u8>) -> int
    recommends
        bytes.len() == 4,
{
    bytes[0] * 0x20_0000 + bytes[1] * 0x4000 + bytes[2] * 0x80 + bytes[3]
}

/// True when the high bit of some byte meets a set low bit of the byte to its
/// left, which is the only way two shifted bytes can share a bit position.
pub open spec fn septets_collide(bytes: Seq<u8>) -> bool
    recommends
        bytes.len() == 4,
{
    ||| bytes[1] >= 0x80 && bytes[0] % 2 == 1
    ||| bytes[2] >= 0x80 && bytes[1] % 2 == 1
    ||| bytes[3] >= 0x80 && bytes[2] % 2 == 1
}

/// The integer that four bytes denote when read as a plain 32-bit number,
/// most significant byte first.
pub open spec fn big_endian_value(bytes: Seq<u8>) -> u32
    recommends
        bytes.len() == 4,
{
    (bytes[0] as u32) << 24 | (bytes[1] as u32) << 16 | (bytes[2] as u32) << 8 | (bytes[3] as u32)
}

/// Converts from 'synchsafe' integers to regular integers.
///
/// Returns `None` if the length of `bytes` is not `4`. The high bit of each
/// byte is not checked.
pub fn synchsafe_to_u32(bytes: &[u8]) -> (value: Option<u32>)
    ensures
        value == spec_synchsafe_to_u32(bytes@),
{
    if bytes.len() == 4 {
        Some(
            (bytes[0] as u32) << 21 | (bytes[1] as u32) << 14 | (bytes[2] as u32) << 7 | (
            bytes[3] as u32),
        )
    } else {
        None
    }
}

/// The conversion yields a value exactly for inputs of four bytes.
pub proof fn lemma_synchsafe_some_iff_four_bytes(bytes: Seq<u8>)
    ensures
        spec_synchsafe_to_u32(bytes) is Some <==> bytes.len() == 4,
        bytes.len() != 4 ==> spec_synchsafe_to_u32(bytes) == None::<u32>,
{
}

/// The value of four bytes is their sum weighted by powers of 128 whenever no
/// two of the shifted bytes share a bit. A set high bit does not change this
/// as long as the byte to its left is even.
pub proof fn lemma_synchsafe_is_septet_sum(bytes: Seq<u8>)
    requires
        bytes.len() == 4,
        !septets_collide(bytes),
    ensures
        synchsafe_value(bytes) == septet_sum(bytes),
{
    let b0 = bytes[0];
    let b1 = bytes[1];
    let b2 = bytes[2];
    let b3 = bytes[3];
    assert(((b0 as u32) << 21 | (b1 as u32) << 14 | (b2 as u32) << 7 | (b3 as u32)) == b0
        * 0x20_0000 + b1 * 0x4000 + b2 * 0x80 + b3) by (bit_vector)
        requires
            !((b1 >= 0x80 && b0 % 2 == 1) || (b2 >= 0x80 && b1 % 2 == 1) || (b3 >= 0x80 && b2 % 2
                == 1)),
    ;
}

/// Where two of the shifted bytes do share a bit, the shared bit counts once
/// in the value and twice in the weighted sum, so the value is the smaller.
pub proof fn lemma_synchsafe_below_septet_sum(bytes: Seq<u8>)
    requires
        bytes.len() == 4,
        septets_collide(bytes),
    ensures
        synchsafe_value(bytes) < septet_sum(bytes),
{
    let b0 = bytes[0];
    let b1 = bytes[1];
    let b2 = bytes[2];
    let b3 = bytes[3];
    assert(((b0 as u32) << 21 | (b1 as u32) << 14 | (b2 as u32) << 7 | (b3 as u32)) < b0
        * 0x20_0000 + b1 * 0x4000 + b2 * 0x80 + b3) by (bit_vector)
        requires
            (b1 >= 0x80 && b0 % 2 == 1) || (b2 >= 0x80 && b1 % 2 == 1) || (b3 >= 0x80 && b2 % 2
                == 1),
    ;
}

/// Four bytes that all have a clear high bit, as a well-formed synchsafe
/// quantity has, never collide, and their value fits in 28 bits.
pub proof fn lemma_synchsafe_of_septets(bytes: Seq<u8>)
    requires
        bytes.len() == 4,
        forall|i: int| 0 <= i < 4 ==> bytes[i] < 0x80,
    ensures
        synchsafe_value(bytes) == septet_sum(bytes),
        synchsafe_value(bytes) < 0x1000_0000,
{
    lemma_synchsafe_is_septet_sum(bytes);
}

/// Whatever the four bytes are, their value fits in 29 bits.
pub proof fn lemma_synchsafe_bound(bytes: Seq<u8>)
    requires
        bytes.len() == 4,
    ensures
        synchsafe_value(bytes) < 0x2000_0000,
{
    let b0 = bytes[0];
    let b1 = bytes[1];
    let b2 = bytes[2];
    let b3 = bytes[3];
    assert(((b0 as u32) << 21 | (b1 as u32) << 14 | (b2 as u32) << 7 | (b3 as u32)) < 0x2000_0000)
        by (bit_vector);
}

/// The big-endian value of four bytes is their sum weighted by powers of 256.
pub proof fn lemma_big_endian_is_byte_sum(bytes: Seq<u8>)
    requires
        bytes.len() == 4,
    ensures
        big_endian_value(bytes) == bytes[0] * 0x100_0000 + bytes[1] * 0x1_0000 + bytes[2] * 0x100
            + bytes[3],
{
    let b0 = bytes[0];
    let b1 = bytes[1];
    let b2 = bytes[2];
    let b3 = bytes[3];
    assert(((b0 as u32) << 24 | (b1 as u32) << 16 | (b2 as u32) << 8 | (b3 as u32)) == b0
        * 0x100_0000 + b1 * 0x1_0000 + b2 * 0x100 + b3) by (bit_vector);
}

} // verus!
