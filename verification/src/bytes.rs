//! Little- and big-endian integer fields inside byte sequences.
use vstd::prelude::*;

verus! {

/// The unsigned 16-bit little-endian value stored at `off`.
pub open spec fn le16_at(s: Seq<u8>, off: int) -> int {
    s[off] + 256 * s[off + 1]
}

/// The unsigned 32-bit little-endian value stored at `off`.
pub open spec fn le32_at(s: Seq<u8>, off: int) -> int {
    s[off] + 256 * s[off + 1] + 65536 * s[off + 2] + 16777216 * s[off + 3]
}

/// The unsigned 32-bit big-endian value stored at `off`.
pub open spec fn be32_at(s: Seq<u8>, off: int) -> int {
    16777216 * s[off] + 65536 * s[off + 1] + 256 * s[off + 2] + s[off + 3]
}

/// The two little-endian bytes of a 16-bit value.
pub open spec fn le16_bytes(v: int) -> Seq<u8> {
    seq![(v % 256) as u8, ((v / 256) % 256) as u8]
}

/// The four little-endian bytes of a 32-bit value.
pub open spec fn le32_bytes(v: int) -> Seq<u8> {
    seq![
        (v % 256) as u8,
        ((v / 256) % 256) as u8,
        ((v / 65536) % 256) as u8,
        ((v / 16777216) % 256) as u8,
    ]
}

/// Reading back the bytes written for a 32-bit value gives the value.
pub proof fn lemma_le32_roundtrip(v: int)
    requires
        0 <= v <= u32::MAX,
    ensures
        le32_bytes(v).len() == 4,
        le32_at(le32_bytes(v), 0) == v,
{
    let b = le32_bytes(v);
    assert(b[0] == v % 256);
    assert(b[1] == (v / 256) % 256);
    assert(b[2] == (v / 65536) % 256);
    assert(b[3] == (v / 16777216) % 256);
    assert(v / 65536 == (v / 256) / 256) by {
        vstd::arithmetic::div_mod::lemma_div_denominator(v, 256, 256);
    }
    assert(v / 16777216 == (v / 65536) / 256) by {
        vstd::arithmetic::div_mod::lemma_div_denominator(v, 65536, 256);
    }
    assert(v / 16777216 < 256);
}

/// Reading back the bytes written for a 16-bit value gives the value.
pub proof fn lemma_le16_roundtrip(v: int)
    requires
        0 <= v <= u16::MAX,
    ensures
        le16_bytes(v).len() == 2,
        le16_at(le16_bytes(v), 0) == v,
{
}

/// Reads the little-endian `u16` at `offset`.
pub fn read_u16_le(data: &[u8], offset: usize) -> (r: u16)
    requires
        offset + 2 <= data@.len(),
    ensures
        r == le16_at(data@, offset as int),
{
    data[offset] as u16 + (data[offset + 1] as u16) * 256
}

/// Reads the big-endian `u32` at `offset`.
pub fn read_u32_be(data: &[u8], offset: usize) -> (r: u32)
    requires
        offset + 4 <= data@.len(),
    ensures
        r == be32_at(data@, offset as int),
{
    (data[offset] as u32) * 16777216 + (data[offset + 1] as u32) * 65536 + (data[offset + 2]
        as u32) * 256 + data[offset + 3] as u32
}

/// Reads the little-endian `u32` at `offset`.
pub fn read_u32_le(data: &[u8], offset: usize) -> (r: u32)
    requires
        offset + 4 <= data@.len(),
    ensures
        r == le32_at(data@, offset as int),
{
    data[offset] as u32 + (data[offset + 1] as u32) * 256 + (data[offset + 2] as u32) * 65536
        + (data[offset + 3] as u32) * 16777216
}

/// Appends the two little-endian bytes of `v`.
pub fn push_le16(out: &mut Vec<u8>, v: u16)
    ensures
        final(out)@ == old(out)@ + le16_bytes(v as int),
{
    out.push((v % 256) as u8);
    out.push(((v / 256) % 256) as u8);
    assert(out@ =~= old(out)@ + le16_bytes(v as int));
}

/// Appends the four little-endian bytes of `v`.
pub fn push_le32(out: &mut Vec<u8>, v: u32)
    ensures
        final(out)@ == old(out)@ + le32_bytes(v as int),
{
    out.push((v % 256) as u8);
    out.push(((v / 256) % 256) as u8);
    out.push(((v / 65536) % 256) as u8);
    out.push(((v / 16777216) % 256) as u8);
    assert(out@ =~= old(out)@ + le32_bytes(v as int));
}

} // verus!
