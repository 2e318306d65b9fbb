//! Little-endian integers on the wire.
use vstd::prelude::*;

verus! {

/// The two little-endian bytes of a 16-bit integer.
pub open spec fn le16(x: u16) -> Seq<u8> {
    seq![(x % 0x100) as u8, (x / 0x100) as u8]
}

/// The four little-endian bytes of a 32-bit integer.
pub open spec fn le32(x: u32) -> Seq<u8> {
    seq![
        (x % 0x100) as u8,
        (x / 0x100 % 0x100) as u8,
        (x / 0x1_0000 % 0x100) as u8,
        (x / 0x100_0000) as u8,
    ]
}

/// The 16-bit integer whose little-endian bytes are the first two of `bytes`.
pub open spec fn from_le16(bytes: Seq<u8>) -> u16 {
    (bytes[0] + bytes[1] * 0x100) as u16
}

/// The 32-bit integer whose little-endian bytes are the first four of `bytes`.
pub open spec fn from_le32(bytes: Seq<u8>) -> u32 {
    (bytes[0] + bytes[1] * 0x100 + bytes[2] * 0x1_0000 + bytes[3] * 0x100_0000) as u32
}

/// Decoding undoes encoding of a 16-bit integer.
pub proof fn lemma_le16_decode_encode(x: u16)
    ensures
        le16(x).len() == 2,
        from_le16(le16(x)) == x,
{
    assert((x % 0x100) as u8 + (x / 0x100) as u8 * 0x100 == x) by (bit_vector);
}

/// Decoding undoes encoding of a 32-bit integer.
pub proof fn lemma_le32_decode_encode(x: u32)
    ensures
        le32(x).len() == 4,
        from_le32(le32(x)) == x,
{
    assert((x % 0x100) as u8 + (x / 0x100 % 0x100) as u8 * 0x100 + (x / 0x1_0000 % 0x100) as u8
        * 0x1_0000 + (x / 0x100_0000) as u8 * 0x100_0000 == x) by (bit_vector);
}

/// Appends the little-endian bytes of `x` to `buffer`.
pub fn put_le16(buffer: &mut Vec<u8>, x: u16)
    ensures
        final(buffer)@ == old(buffer)@ + le16(x),
{
    buffer.push((x % 0x100) as u8);
    buffer.push((x / 0x100) as u8);
    assert(buffer@ =~= old(buffer)@ + le16(x));
}

/// Appends the little-endian bytes of `x` to `buffer`.
pub fn put_le32(buffer: &mut Vec<u8>, x: u32)
    ensures
        final(buffer)@ == old(buffer)@ + le32(x),
{
    buffer.push((x % 0x100) as u8);
    buffer.push((x / 0x100 % 0x100) as u8);
    buffer.push((x / 0x1_0000 % 0x100) as u8);
    buffer.push((x / 0x100_0000) as u8);
    assert(buffer@ =~= old(buffer)@ + le32(x));
}

/// Reads the 16-bit little-endian integer at offset `at` of `data`.
pub fn get_le16(data: &[u8], at: usize) -> (x: u16)
    requires
        at + 2 <= data.len(),
    ensures
        x == from_le16(data@.subrange(at as int, at + 2)),
{
    (data[at] as u16) + (data[at + 1] as u16) * 0x100
}

/// Reads the 32-bit little-endian integer at offset `at` of `data`.
pub fn get_le32(data: &[u8], at: usize) -> (x: u32)
    requires
        at + 4 <= data.len(),
    ensures
        x == from_le32(data@.subrange(at as int, at + 4)),
{
    (data[at] as u32) + (data[at + 1] as u32) * 0x100 + (data[at + 2] as u32) * 0x1_0000 + (data[at
        + 3] as u32) * 0x100_0000
}

/// The little-endian bytes of `x` as an array.
pub fn le32_array(x: u32) -> (bytes: [u8; 4])
    ensures
        bytes@ == le32(x),
{
    let bytes: [u8; 4] = [
        (x % 0x100) as u8,
        (x / 0x100 % 0x100) as u8,
        (x / 0x1_0000 % 0x100) as u8,
        (x / 0x100_0000) as u8,
    ];
    assert(bytes@ =~= le32(x));
    bytes
}

} // verus!
