//! Little- and big-endian integer fields inside byte buffers.
use byteorder::{BigEndian, ByteOrder, LittleEndian};
use vstd::prelude::*;

verus! {

/// The unsigned 16-bit value stored little-endian at `s[pos..pos + 2]`.
pub open spec fn le16(s: Seq<u8>, pos: int) -> u16 {
    (s[pos] + 256 * s[pos + 1]) as u16
}

/// The unsigned 32-bit value stored little-endian at `s[pos..pos + 4]`.
pub open spec fn le32(s: Seq<u8>, pos: int) -> u32 {
    (s[pos] + 256 * s[pos + 1] + 65536 * s[pos + 2] + 16777216 * s[pos + 3]) as u32
}

/// The unsigned 16-bit value stored big-endian at `s[pos..pos + 2]`.
pub open spec fn be16(s: Seq<u8>, pos: int) -> u16 {
    (256 * s[pos] + s[pos + 1]) as u16
}

/// The unsigned 32-bit value stored big-endian at `s[pos..pos + 4]`.
pub open spec fn be32(s: Seq<u8>, pos: int) -> u32 {
    (16777216 * s[pos] + 65536 * s[pos + 1] + 256 * s[pos + 2] + s[pos + 3]) as u32
}

/// `s` with `v` stored little-endian at `s[pos..pos + 2]`.
pub open spec fn put_le16(s: Seq<u8>, pos: int, v: u16) -> Seq<u8> {
    s.update(pos, (v % 256) as u8).update(pos + 1, (v / 256) as u8)
}

/// `s` with `v` stored little-endian at `s[pos..pos + 4]`.
pub open spec fn put_le32(s: Seq<u8>, pos: int, v: u32) -> Seq<u8> {
    s.update(pos, (v % 256) as u8)
        .update(pos + 1, ((v / 256) % 256) as u8)
        .update(pos + 2, ((v / 65536) % 256) as u8)
        .update(pos + 3, (v / 16777216) as u8)
}

/// `s` with `v` stored big-endian at `s[pos..pos + 4]`.
pub open spec fn put_be32(s: Seq<u8>, pos: int, v: u32) -> Seq<u8> {
    s.update(pos, (v / 16777216) as u8)
        .update(pos + 1, ((v / 65536) % 256) as u8)
        .update(pos + 2, ((v / 256) % 256) as u8)
        .update(pos + 3, (v % 256) as u8)
}

/// The two bytes that encode `v` little-endian.
pub open spec fn le16_bytes(v: u16) -> Seq<u8> {
    seq![(v % 256) as u8, (v / 256) as u8]
}

/// The four bytes that encode `v` little-endian.
pub open spec fn le32_bytes(v: u32) -> Seq<u8> {
    seq![(v % 256) as u8, ((v / 256) % 256) as u8, ((v / 65536) % 256) as u8, (v / 16777216) as u8]
}

/// The four bytes that encode `v` big-endian.
pub open spec fn be32_bytes(v: u32) -> Seq<u8> {
    seq![(v / 16777216) as u8, ((v / 65536) % 256) as u8, ((v / 256) % 256) as u8, (v % 256) as u8]
}

/// Calls `byteorder::LittleEndian::read_u16` on `buf[pos..]`: the documentation
/// says it reads the first two bytes as a little-endian `u16` and panics when
/// fewer than two bytes are given, which `requires` rules out.
#[verifier::external_body]
pub(crate) fn read_le_u16(buf: &[u8], pos: usize) -> (r: u16)
    requires
        pos + 2 <= buf@.len(),
    ensures
        r == le16(buf@, pos as int),
{
    LittleEndian::read_u16(&buf[pos..])
}

/// Calls `byteorder::LittleEndian::read_u32` on `buf[pos..]`: it reads the first
/// four bytes as a little-endian `u32`; fewer than four bytes would panic.
#[verifier::external_body]
pub(crate) fn read_le_u32(buf: &[u8], pos: usize) -> (r: u32)
    requires
        pos + 4 <= buf@.len(),
    ensures
        r == le32(buf@, pos as int),
{
    LittleEndian::read_u32(&buf[pos..])
}

/// Calls `byteorder::BigEndian::read_u16` on `buf[pos..]`: it reads the first
/// two bytes as a big-endian `u16`; fewer than two bytes would panic.
#[verifier::external_body]
pub(crate) fn read_be_u16(buf: &[u8], pos: usize) -> (r: u16)
    requires
        pos + 2 <= buf@.len(),
    ensures
        r == be16(buf@, pos as int),
{
    BigEndian::read_u16(&buf[pos..])
}

/// Calls `byteorder::BigEndian::read_u32` on `buf[pos..]`: it reads the first
/// four bytes as a big-endian `u32`; fewer than four bytes would panic.
#[verifier::external_body]
pub(crate) fn read_be_u32(buf: &[u8], pos: usize) -> (r: u32)
    requires
        pos + 4 <= buf@.len(),
    ensures
        r == be32(buf@, pos as int),
{
    BigEndian::read_u32(&buf[pos..])
}

/// Calls `byteorder::LittleEndian::write_u16` on `buf[pos..]`: it overwrites the
/// first two bytes with `n` in little-endian order and leaves every other byte
/// as it was; fewer than two bytes would panic.
#[verifier::external_body]
pub(crate) fn write_le_u16(buf: &mut [u8], pos: usize, n: u16)
    requires
        pos + 2 <= old(buf)@.len(),
    ensures
        final(buf)@ == put_le16(old(buf)@, pos as int, n),
{
    LittleEndian::write_u16(&mut buf[pos..], n)
}

/// Calls `byteorder::LittleEndian::write_u32` on `buf[pos..]`: it overwrites the
/// first four bytes with `n` in little-endian order and leaves every other byte
/// as it was; fewer than four bytes would panic.
#[verifier::external_body]
pub(crate) fn write_le_u32(buf: &mut [u8], pos: usize, n: u32)
    requires
        pos + 4 <= old(buf)@.len(),
    ensures
        final(buf)@ == put_le32(old(buf)@, pos as int, n),
{
    LittleEndian::write_u32(&mut buf[pos..], n)
}

/// Calls `byteorder::BigEndian::write_u32` on `buf[pos..]`: it overwrites the
/// first four bytes with `n` in big-endian order and leaves every other byte as
/// it was; fewer than four bytes would panic.
#[verifier::external_body]
pub(crate) fn write_be_u32(buf: &mut [u8], pos: usize, n: u32)
    requires
        pos + 4 <= old(buf)@.len(),
    ensures
        final(buf)@ == put_be32(old(buf)@, pos as int, n),
{
    BigEndian::write_u32(&mut buf[pos..], n)
}

/// The little-endian bytes of a `u32` decode back to it.
pub proof fn lemma_le32_bytes(v: u32)
    ensures
        le32(le32_bytes(v), 0) == v,
{
}

/// A little-endian `u32` read from four bytes encodes back to those bytes.
pub proof fn lemma_le32_of_bytes(s: Seq<u8>, pos: int)
    requires
        0 <= pos,
        pos + 4 <= s.len(),
    ensures
        le32_bytes(le32(s, pos)) == s.subrange(pos, pos + 4),
{
    lemma_le32_split(s[pos], s[pos + 1], s[pos + 2], s[pos + 3]);
    assert(le32_bytes(le32(s, pos)) =~= s.subrange(pos, pos + 4));
}

/// Splitting a little-endian sum of four bytes back into the bytes.
pub proof fn lemma_le32_split(b0: u8, b1: u8, b2: u8, b3: u8)
    ensures
        ({
            let v = (b0 + 256 * b1 + 65536 * b2 + 16777216 * b3) as u32;
            &&& v % 256 == b0
            &&& (v / 256) % 256 == b1
            &&& (v / 65536) % 256 == b2
            &&& v / 16777216 == b3
        }),
{
    assert({
        let v = (b0 + 256 * b1 + 65536 * b2 + 16777216 * b3) as u32;
        &&& v % 256 == b0
        &&& (v / 256) % 256 == b1
        &&& (v / 65536) % 256 == b2
        &&& v / 16777216 == b3
    }) by (bit_vector);
}

} // verus!
