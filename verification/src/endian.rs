//! Little-endian encoding of the 16-bit and 32-bit numbers of a WAV header.

use vstd::prelude::*;

verus! {

/// The two bytes that stand for `x` on the wire, least significant first.
pub open spec fn spec_u16_to_le_bytes(x: u16) -> Seq<u8> {
    seq![(x % 256) as u8, (x / 256) as u8]
}

/// The number that the first two bytes of `bytes` stand for, least significant first.
pub open spec fn spec_u16_from_le_bytes(bytes: Seq<u8>) -> u16 {
    (bytes[0] + 256 * bytes[1]) as u16
}

/// The four bytes that stand for `x` on the wire, least significant first.
pub open spec fn spec_u32_to_le_bytes(x: u32) -> Seq<u8> {
    seq![
        (x % 256) as u8,
        (x / 256 % 256) as u8,
        (x / 65536 % 256) as u8,
        (x / 16777216) as u8,
    ]
}

/// The number that the first four bytes of `bytes` stand for, least significant first.
pub open spec fn spec_u32_from_le_bytes(bytes: Seq<u8>) -> u32 {
    (bytes[0] + 256 * bytes[1] + 65536 * bytes[2] + 16777216 * bytes[3]) as u32
}

/// Reads a 16-bit number from its little-endian bytes.
pub fn u16_from_le_bytes(bytes: [u8; 2]) -> (x: u16)
    ensures
        x == spec_u16_from_le_bytes(bytes@),
{
    let low: u16 = bytes[0] as u16;
    let high: u16 = bytes[1] as u16;
    low + 256 * high
}

/// Writes a 16-bit number as its little-endian bytes.
pub fn u16_to_le_bytes(x: u16) -> (bytes: [u8; 2])
    ensures
        bytes@ == spec_u16_to_le_bytes(x),
{
    [(x % 256) as u8, (x / 256) as u8]
}

/// Reads a 32-bit number from its little-endian bytes.
pub fn u32_from_le_bytes(bytes: [u8; 4]) -> (x: u32)
    ensures
        x == spec_u32_from_le_bytes(bytes@),
{
    let b0: u32 = bytes[0] as u32;
    let b1: u32 = bytes[1] as u32;
    let b2: u32 = bytes[2] as u32;
    let b3: u32 = bytes[3] as u32;
    b0 + 256 * b1 + 65536 * b2 + 16777216 * b3
}

/// Writes a 32-bit number as its little-endian bytes.
pub fn u32_to_le_bytes(x: u32) -> (bytes: [u8; 4])
    ensures
        bytes@ == spec_u32_to_le_bytes(x),
{
    [(x % 256) as u8, (x / 256 % 256) as u8, (x / 65536 % 256) as u8, (x / 16777216) as u8]
}

/// Encoding a 16-bit number and decoding the bytes gives the number back.
pub proof fn lemma_u16_value_round_trip(x: u16)
    ensures
        spec_u16_to_le_bytes(x).len() == 2,
        spec_u16_from_le_bytes(spec_u16_to_le_bytes(x)) == x,
{
}

/// Decoding two bytes and encoding the number gives the bytes back.
pub proof fn lemma_u16_bytes_round_trip(bytes: Seq<u8>)
    requires
        bytes.len() == 2,
    ensures
        spec_u16_to_le_bytes(spec_u16_from_le_bytes(bytes)) == bytes,
{
}

/// Encoding a 32-bit number and decoding the bytes gives the number back.
pub proof fn lemma_u32_value_round_trip(x: u32)
    ensures
        spec_u32_to_le_bytes(x).len() == 4,
        spec_u32_from_le_bytes(spec_u32_to_le_bytes(x)) == x,
{
}

/// Decoding four bytes and encoding the number gives the bytes back.
pub proof fn lemma_u32_bytes_round_trip(bytes: Seq<u8>)
    requires
        bytes.len() == 4,
    ensures
        spec_u32_to_le_bytes(spec_u32_from_le_bytes(bytes)) == bytes,
{
    let b0 = bytes[0] as int;
    let b1 = bytes[1] as int;
    let b2 = bytes[2] as int;
    let b3 = bytes[3] as int;
    let upper = b2 + 256 * b3;
    let middle = b1 + 256 * upper;
    let x = b0 + 256 * middle;
    assert(x % 256 == b0 && x / 256 == middle);
    assert(middle % 256 == b1 && middle / 256 == upper);
    assert(upper % 256 == b2 && upper / 256 == b3);
    assert(x / 65536 == upper);
    assert(x / 16777216 == b3);
    assert(spec_u32_to_le_bytes(spec_u32_from_le_bytes(bytes)) =~= bytes);
}

} // verus!
