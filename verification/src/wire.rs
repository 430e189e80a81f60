//! Little-endian integer encoding.
//!
//! The encoding is stated arithmetically, byte by byte, so that the contracts
//! of the wire formats built on it can be read without bit operations. The
//! executable conversions are those of the `byteorder` crate.

use byteorder::ByteOrder;
use byteorder::LittleEndian;
use byteorder::WriteBytesExt;
use vstd::prelude::*;

verus! {

/// The unsigned 16-bit integer encoded by the bytes `lo, hi`.
pub open spec fn u16_from_le(lo: u8, hi: u8) -> u16 {
    (lo as int + 256 * (hi as int)) as u16
}

/// The two's-complement 16-bit integer encoded by the bytes `lo, hi`.
pub open spec fn i16_from_le(lo: u8, hi: u8) -> i16 {
    if hi >= 128 {
        (lo as int + 256 * (hi as int) - 65536) as i16
    } else {
        (lo as int + 256 * (hi as int)) as i16
    }
}

/// The unsigned 32-bit integer encoded by the bytes `b0, b1, b2, b3`.
pub open spec fn u32_from_le(b0: u8, b1: u8, b2: u8, b3: u8) -> u32 {
    (b0 as int + 256 * (b1 as int) + 65536 * (b2 as int) + 16777216 * (b3 as int)) as u32
}

/// The two bytes that encode `v`, least significant first.
pub open spec fn u16_le(v: u16) -> Seq<u8> {
    seq![(v as int % 256) as u8, (v as int / 256) as u8]
}

/// The two bytes that encode `v` in two's complement, least significant first.
pub open spec fn i16_le(v: i16) -> Seq<u8> {
    if v < 0 {
        u16_le((v as int + 65536) as u16)
    } else {
        u16_le(v as u16)
    }
}

/// The four bytes that encode `v`, least significant first.
pub open spec fn u32_le(v: u32) -> Seq<u8> {
    seq![
        (v as int % 256) as u8,
        (v as int / 256 % 256) as u8,
        (v as int / 65536 % 256) as u8,
        (v as int / 16777216) as u8,
    ]
}

/// Decoding the encoding of an unsigned 16-bit integer gives the integer back.
pub proof fn lemma_u16_round_trip(v: u16)
    ensures
        u16_le(v).len() == 2,
        u16_from_le(u16_le(v)[0], u16_le(v)[1]) == v,
{
}

/// Decoding the encoding of a signed 16-bit integer gives the integer back.
pub proof fn lemma_i16_round_trip(v: i16)
    ensures
        i16_le(v).len() == 2,
        i16_from_le(i16_le(v)[0], i16_le(v)[1]) == v,
{
}

/// Decoding the encoding of an unsigned 32-bit integer gives the integer back.
pub proof fn lemma_u32_round_trip(v: u32)
    ensures
        u32_le(v).len() == 4,
        u32_from_le(u32_le(v)[0], u32_le(v)[1], u32_le(v)[2], u32_le(v)[3]) == v,
{
}

/// Encoding the integer that two bytes decode to gives the two bytes back.
pub proof fn lemma_u16_bytes_round_trip(lo: u8, hi: u8)
    ensures
        u16_le(u16_from_le(lo, hi)) == seq![lo, hi],
        i16_le(i16_from_le(lo, hi)) == seq![lo, hi],
{
}

/// Calls `byteorder::LittleEndian::read_u16`, which reads the first two bytes
/// of `buf` as a little-endian `u16` and panics on a shorter buffer.
#[verifier::external_body]
pub(crate) fn read_u16(buf: &[u8]) -> (v: u16)
    requires
        buf@.len() >= 2,
    ensures
        v == u16_from_le(buf@[0], buf@[1]),
{
    LittleEndian::read_u16(buf)
}

/// Calls `byteorder::LittleEndian::read_i16`, which reads the first two bytes
/// of `buf` as a little-endian `u16`, reinterprets it in two's complement and
/// panics on a shorter buffer.
#[verifier::external_body]
pub(crate) fn read_i16(buf: &[u8]) -> (v: i16)
    requires
        buf@.len() >= 2,
    ensures
        v == i16_from_le(buf@[0], buf@[1]),
{
    LittleEndian::read_i16(buf)
}

/// Calls `byteorder::LittleEndian::read_u32`, which reads the first four bytes
/// of `buf` as a little-endian `u32` and panics on a shorter buffer.
#[verifier::external_body]
pub(crate) fn read_u32(buf: &[u8]) -> (v: u32)
    requires
        buf@.len() >= 4,
    ensures
        v == u32_from_le(buf@[0], buf@[1], buf@[2], buf@[3]),
{
    LittleEndian::read_u32(buf)
}

/// Calls `byteorder::WriteBytesExt::write_u16` with `LittleEndian` on a
/// vector, which appends the two bytes of `n`, least significant first. A
/// vector accepts every write, so the call cannot fail.
#[verifier::external_body]
pub(crate) fn write_u16(out: &mut Vec<u8>, n: u16)
    ensures
        final(out)@ == old(out)@ + u16_le(n),
{
    let _ = out.write_u16::<LittleEndian>(n);
}

/// Calls `byteorder::WriteBytesExt::write_i16` with `LittleEndian` on a
/// vector, which appends the two bytes of `n` in two's complement, least
/// significant first. A vector accepts every write, so the call cannot fail.
#[verifier::external_body]
pub(crate) fn write_i16(out: &mut Vec<u8>, n: i16)
    ensures
        final(out)@ == old(out)@ + i16_le(n),
{
    let _ = out.write_i16::<LittleEndian>(n);
}

/// Calls `byteorder::WriteBytesExt::write_u32` with `LittleEndian` on a
/// vector, which appends the four bytes of `n`, least significant first. A
/// vector accepts every write, so the call cannot fail.
#[verifier::external_body]
pub(crate) fn write_u32(out: &mut Vec<u8>, n: u32)
    ensures
        final(out)@ == old(out)@ + u32_le(n),
{
    let _ = out.write_u32::<LittleEndian>(n);
}

} // verus!
