//! Integers in network byte order: the most significant byte comes first.

use vstd::prelude::*;

verus! {

/// The two bytes of `value`, most significant first.
pub open spec fn u16_be_bytes(value: u16) -> Seq<u8> {
    seq![(value / 0x100) as u8, (value % 0x100) as u8]
}

/// The four bytes of `value`, most significant first.
pub open spec fn u32_be_bytes(value: u32) -> Seq<u8> {
    seq![
        (value / 0x100_0000) as u8,
        (value / 0x1_0000 % 0x100) as u8,
        (value / 0x100 % 0x100) as u8,
        (value % 0x100) as u8,
    ]
}

/// The eight bytes of `value`, most significant first.
pub open spec fn u64_be_bytes(value: u64) -> Seq<u8> {
    seq![
        (value / 0x100_0000_0000_0000) as u8,
        (value / 0x1_0000_0000_0000 % 0x100) as u8,
        (value / 0x100_0000_0000 % 0x100) as u8,
        (value / 0x1_0000_0000 % 0x100) as u8,
        (value / 0x100_0000 % 0x100) as u8,
        (value / 0x1_0000 % 0x100) as u8,
        (value / 0x100 % 0x100) as u8,
        (value % 0x100) as u8,
    ]
}

/// The number that the first two bytes of `bytes` spell.
pub open spec fn u16_from_be(bytes: Seq<u8>) -> u16
    recommends
        bytes.len() == 2,
{
    (bytes[0] as int * 0x100 + bytes[1] as int) as u16
}

/// The number that the first four bytes of `bytes` spell.
pub open spec fn u32_from_be(bytes: Seq<u8>) -> u32
    recommends
        bytes.len() == 4,
{
    (bytes[0] as int * 0x100_0000 + bytes[1] as int * 0x1_0000 + bytes[2] as int * 0x100
        + bytes[3] as int) as u32
}

/// The number that the first eight bytes of `bytes` spell.
pub open spec fn u64_from_be(bytes: Seq<u8>) -> u64
    recommends
        bytes.len() == 8,
{
    (bytes[0] as int * 0x100_0000_0000_0000 + bytes[1] as int * 0x1_0000_0000_0000
        + bytes[2] as int * 0x100_0000_0000 + bytes[3] as int * 0x1_0000_0000 + bytes[4] as int
        * 0x100_0000 + bytes[5] as int * 0x1_0000 + bytes[6] as int * 0x100
        + bytes[7] as int) as u64
}

/// Encodes `value` in two bytes.
pub fn encode_u16(value: u16) -> (bytes: [u8; 2])
    ensures
        bytes@ == u16_be_bytes(value),
{
    [(value / 0x100) as u8, (value % 0x100) as u8]
}

/// Encodes `value` in four bytes.
pub fn encode_u32(value: u32) -> (bytes: [u8; 4])
    ensures
        bytes@ == u32_be_bytes(value),
{
    [
        (value / 0x100_0000) as u8,
        (value / 0x1_0000 % 0x100) as u8,
        (value / 0x100 % 0x100) as u8,
        (value % 0x100) as u8,
    ]
}

/// Encodes `value` in eight bytes.
pub fn encode_u64(value: u64) -> (bytes: [u8; 8])
    ensures
        bytes@ == u64_be_bytes(value),
{
    [
        (value / 0x100_0000_0000_0000) as u8,
        (value / 0x1_0000_0000_0000 % 0x100) as u8,
        (value / 0x100_0000_0000 % 0x100) as u8,
        (value / 0x1_0000_0000 % 0x100) as u8,
        (value / 0x100_0000 % 0x100) as u8,
        (value / 0x1_0000 % 0x100) as u8,
        (value / 0x100 % 0x100) as u8,
        (value % 0x100) as u8,
    ]
}

/// Decodes two bytes.
pub fn decode_u16(bytes: [u8; 2]) -> (value: u16)
    ensures
        value == u16_from_be(bytes@),
{
    bytes[0] as u16 * 0x100 + bytes[1] as u16
}

/// Decodes four bytes.
pub fn decode_u32(bytes: [u8; 4]) -> (value: u32)
    ensures
        value == u32_from_be(bytes@),
{
    bytes[0] as u32 * 0x100_0000 + bytes[1] as u32 * 0x1_0000 + bytes[2] as u32 * 0x100
        + bytes[3] as u32
}

/// Decodes eight bytes.
pub fn decode_u64(bytes: [u8; 8]) -> (value: u64)
    ensures
        value == u64_from_be(bytes@),
{
    bytes[0] as u64 * 0x100_0000_0000_0000 + bytes[1] as u64 * 0x1_0000_0000_0000 + bytes[2] as u64
        * 0x100_0000_0000 + bytes[3] as u64 * 0x1_0000_0000 + bytes[4] as u64 * 0x100_0000
        + bytes[5] as u64 * 0x1_0000 + bytes[6] as u64 * 0x100 + bytes[7] as u64
}

/// Decoding undoes encoding of two bytes.
pub proof fn lemma_u16_round_trip(value: u16)
    ensures
        u16_from_be(u16_be_bytes(value)) == value,
{
    assert(((value / 0x100) as u8) as u16 * 0x100 + ((value % 0x100) as u8) as u16 == value)
        by (bit_vector);
}

/// Decoding undoes encoding of four bytes.
pub proof fn lemma_u32_round_trip(value: u32)
    ensures
        u32_from_be(u32_be_bytes(value)) == value,
{
    assert(((value / 0x100_0000) as u8) as u32 * 0x100_0000 + ((value / 0x1_0000 % 0x100) as u8) as u32
        * 0x1_0000 + ((value / 0x100 % 0x100) as u8) as u32 * 0x100 + ((value % 0x100) as u8) as u32
        == value) by (bit_vector);
}

/// Decoding undoes encoding of eight bytes.
pub proof fn lemma_u64_round_trip(value: u64)
    ensures
        u64_from_be(u64_be_bytes(value)) == value,
{
    assert(((value / 0x100_0000_0000_0000) as u8) as u64 * 0x100_0000_0000_0000 + ((value
        / 0x1_0000_0000_0000 % 0x100) as u8) as u64 * 0x1_0000_0000_0000 + ((value
        / 0x100_0000_0000 % 0x100) as u8) as u64 * 0x100_0000_0000 + ((value / 0x1_0000_0000
        % 0x100) as u8) as u64 * 0x1_0000_0000 + ((value / 0x100_0000 % 0x100) as u8) as u64
        * 0x100_0000 + ((value / 0x1_0000 % 0x100) as u8) as u64 * 0x1_0000 + ((value / 0x100
        % 0x100) as u8) as u64 * 0x100 + ((value % 0x100) as u8) as u64 == value) by (bit_vector);
}

/// Encoding undoes decoding: the bytes of the number that two bytes spell
/// are those two bytes.
pub proof fn lemma_u16_bytes_round_trip(bytes: Seq<u8>)
    requires
        bytes.len() == 2,
    ensures
        u16_be_bytes(u16_from_be(bytes)) == bytes,
{
    let (b0, b1) = (bytes[0], bytes[1]);
    let v = u16_from_be(bytes);
    assert((v / 0x100) as u8 == b0 && (v % 0x100) as u8 == b1) by (bit_vector)
        requires
            v == b0 as u16 * 0x100 + b1 as u16,
    ;
}

/// Encoding undoes decoding: the bytes of the number that four bytes spell
/// are those four bytes.
pub proof fn lemma_u32_bytes_round_trip(bytes: Seq<u8>)
    requires
        bytes.len() == 4,
    ensures
        u32_be_bytes(u32_from_be(bytes)) == bytes,
{
    let (b0, b1, b2, b3) = (bytes[0], bytes[1], bytes[2], bytes[3]);
    let v = u32_from_be(bytes);
    assert((v / 0x100_0000) as u8 == b0 && (v / 0x1_0000 % 0x100) as u8 == b1 && (v / 0x100
        % 0x100) as u8 == b2 && (v % 0x100) as u8 == b3) by (bit_vector)
        requires
            v == b0 as u32 * 0x100_0000 + b1 as u32 * 0x1_0000 + b2 as u32 * 0x100 + b3 as u32,
    ;
}

/// Encoding undoes decoding: the bytes of the number that eight bytes spell
/// are those eight bytes.
pub proof fn lemma_u64_bytes_round_trip(bytes: Seq<u8>)
    requires
        bytes.len() == 8,
    ensures
        u64_be_bytes(u64_from_be(bytes)) == bytes,
{
    let (b0, b1, b2, b3) = (bytes[0], bytes[1], bytes[2], bytes[3]);
    let (b4, b5, b6, b7) = (bytes[4], bytes[5], bytes[6], bytes[7]);
    let v = u64_from_be(bytes);
    assert((v / 0x100_0000_0000_0000) as u8 == b0 && (v / 0x1_0000_0000_0000 % 0x100) as u8 == b1
        && (v / 0x100_0000_0000 % 0x100) as u8 == b2 && (v / 0x1_0000_0000 % 0x100) as u8 == b3
        && (v / 0x100_0000 % 0x100) as u8 == b4 && (v / 0x1_0000 % 0x100) as u8 == b5 && (v
        / 0x100 % 0x100) as u8 == b6 && (v % 0x100) as u8 == b7) by (bit_vector)
        requires
            v == b0 as u64 * 0x100_0000_0000_0000 + b1 as u64 * 0x1_0000_0000_0000 + b2 as u64
                * 0x100_0000_0000 + b3 as u64 * 0x1_0000_0000 + b4 as u64 * 0x100_0000 + b5 as u64
                * 0x1_0000 + b6 as u64 * 0x100 + b7 as u64,
    ;
}

} // verus!
