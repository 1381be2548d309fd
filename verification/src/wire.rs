//! Little-endian integers as they travel in ANCS frames.

use vstd::prelude::*;

verus! {

/// The 16-bit value whose little-endian encoding is `lo`, `hi`.
pub open spec fn u16_from_le(lo: u8, hi: u8) -> u16 {
    (lo as int + 256 * (hi as int)) as u16
}

/// The 32-bit value whose little-endian encoding is the four bytes of `bytes`.
pub open spec fn u32_from_le(bytes: Seq<u8>) -> u32
    recommends
        bytes.len() == 4,
{
    (bytes[0] as int + 256 * (bytes[1] as int) + 65536 * (bytes[2] as int) + 16777216 * (
    bytes[3] as int)) as u32
}

/// The four bytes that encode `value`, least significant first.
pub open spec fn u32_to_le(value: u32) -> Seq<u8> {
    seq![
        (value as int % 256) as u8,
        (value as int / 256 % 256) as u8,
        (value as int / 65536 % 256) as u8,
        (value as int / 16777216) as u8,
    ]
}

/// The two bytes that encode `value`, least significant first.
pub open spec fn u16_to_le(value: u16) -> Seq<u8> {
    seq![(value as int % 256) as u8, (value as int / 256) as u8]
}

/// Reads a 16-bit little-endian value from its two bytes.
pub fn read_u16_le(lo: u8, hi: u8) -> (value: u16)
    ensures
        value == u16_from_le(lo, hi),
{
    (lo as u16) + 256 * (hi as u16)
}

/// Reads the 32-bit little-endian value stored at `bytes[at..at + 4]`.
pub fn read_u32_le(bytes: &Vec<u8>, at: usize) -> (value: u32)
    requires
        at + 4 <= bytes.len(),
    ensures
        value == u32_from_le(bytes@.subrange(at as int, at + 4)),
{
    let b0: u32 = bytes[at] as u32;
    let b1: u32 = bytes[at + 1] as u32;
    let b2: u32 = bytes[at + 2] as u32;
    let b3: u32 = bytes[at + 3] as u32;
    b0 + 256 * b1 + 65536 * b2 + 16777216 * b3
}

/// Appends the little-endian encoding of `value` to `out`.
pub fn push_u32_le(out: &mut Vec<u8>, value: u32)
    ensures
        final(out)@ == old(out)@ + u32_to_le(value),
{
    out.push((value % 256) as u8);
    out.push((value / 256 % 256) as u8);
    out.push((value / 65536 % 256) as u8);
    out.push((value / 16777216) as u8);
}

/// Appends the little-endian encoding of `value` to `out`.
pub fn push_u16_le(out: &mut Vec<u8>, value: u16)
    ensures
        final(out)@ == old(out)@ + u16_to_le(value),
{
    out.push((value % 256) as u8);
    out.push((value / 256) as u8);
}

/// Encoding a 16-bit value and reading it back yields the value.
pub proof fn lemma_u16_le_round_trip(value: u16)
    ensures
        u16_to_le(value).len() == 2,
        u16_from_le(u16_to_le(value)[0], u16_to_le(value)[1]) == value,
{
}

/// Reading two bytes and encoding the value yields the same two bytes.
pub proof fn lemma_u16_le_bytes_round_trip(lo: u8, hi: u8)
    ensures
        u16_to_le(u16_from_le(lo, hi)) == seq![lo, hi],
{
    assert(u16_to_le(u16_from_le(lo, hi)) =~= seq![lo, hi]);
}

/// Encoding a value and reading it back yields the value.
pub proof fn lemma_u32_le_round_trip(value: u32)
    ensures
        u32_to_le(value).len() == 4,
        u32_from_le(u32_to_le(value)) == value,
{
}

/// Reading four bytes and encoding the value yields the same four bytes.
pub proof fn lemma_u32_le_bytes_round_trip(bytes: Seq<u8>)
    requires
        bytes.len() == 4,
    ensures
        u32_to_le(u32_from_le(bytes)) == bytes,
{
    let b0 = bytes[0] as int;
    let b1 = bytes[1] as int;
    let b2 = bytes[2] as int;
    let b3 = bytes[3] as int;
    let value = b0 + 256 * b1 + 65536 * b2 + 16777216 * b3;
    assert(value == u32_from_le(bytes) as int);
    assert(value % 256 == b0 && value / 256 == b1 + 256 * b2 + 65536 * b3);
    assert(value / 256 % 256 == b1);
    assert(value / 65536 == b2 + 256 * b3);
    assert(value / 65536 % 256 == b2);
    assert(value / 16777216 == b3);
    assert(u32_to_le(u32_from_le(bytes)) =~= bytes);
}

} // verus!
