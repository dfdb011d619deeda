//! Byte-level primitives shared by every decoder stage: little-endian
//! integer reads over a byte slice with an explicit cursor position, and the
//! bit-extraction bounds the bit-packed fields rely on.
//!
//! Each exec reader is specified against a spec-level reader over the
//! slice's `Seq<u8>` view; [`decode_agrees`] ties the two together.

use crate::error::DecodeError;
use vstd::prelude::*;

verus! {

/// Little-endian value of the 2 bytes at `pos`.
pub open spec fn le16(s: Seq<u8>, pos: int) -> int {
    s[pos] + 0x100 * s[pos + 1]
}

/// Little-endian value of the 3 bytes at `pos`, zero-extended: always below
/// `0x100_0000`, so it fits a 32-bit integer with the top byte zero.
pub open spec fn le24(s: Seq<u8>, pos: int) -> int {
    s[pos] + 0x100 * s[pos + 1] + 0x10000 * s[pos + 2]
}

/// Little-endian value of the 4 bytes at `pos`.
pub open spec fn le32(s: Seq<u8>, pos: int) -> int {
    s[pos] + 0x100 * s[pos + 1] + 0x10000 * s[pos + 2] + 0x1000000 * s[pos + 3]
}

/// Little-endian value of the 6 bytes at `pos`, zero-extended to 64 bits.
pub open spec fn le48(s: Seq<u8>, pos: int) -> int {
    s[pos] + 0x100 * s[pos + 1] + 0x10000 * s[pos + 2] + 0x1000000 * s[pos + 3]
        + 0x100000000 * s[pos + 4] + 0x10000000000 * s[pos + 5]
}

/// One byte at `pos`, or `InsufficientData` past the end of the slice.
pub open spec fn spec_read_u8(s: Seq<u8>, pos: int) -> Result<(u8, int), DecodeError> {
    if 0 <= pos && pos + 1 <= s.len() {
        Ok((s[pos], pos + 1))
    } else {
        Err(DecodeError::InsufficientData)
    }
}

/// Two bytes at `pos` as a little-endian 16-bit integer.
pub open spec fn spec_read_u16(s: Seq<u8>, pos: int) -> Result<(u16, int), DecodeError> {
    if 0 <= pos && pos + 2 <= s.len() {
        Ok((le16(s, pos) as u16, pos + 2))
    } else {
        Err(DecodeError::InsufficientData)
    }
}

/// Four bytes at `pos` as a little-endian 32-bit integer.
pub open spec fn spec_read_u32(s: Seq<u8>, pos: int) -> Result<(u32, int), DecodeError> {
    if 0 <= pos && pos + 4 <= s.len() {
        Ok((le32(s, pos) as u32, pos + 4))
    } else {
        Err(DecodeError::InsufficientData)
    }
}

/// Six bytes at `pos` as a little-endian 48-bit integer, zero-extended to 64
/// bits.
pub open spec fn spec_read_u48(s: Seq<u8>, pos: int) -> Result<(u64, int), DecodeError> {
    if 0 <= pos && pos + 6 <= s.len() {
        Ok((le48(s, pos) as u64, pos + 6))
    } else {
        Err(DecodeError::InsufficientData)
    }
}

/// The exec decoder's result matches the spec-level one: the same error, or
/// the same value (through its view) at the same final position.
pub open spec fn decode_agrees<T: View>(
    r: Result<(T, usize), DecodeError>,
    m: Result<(T::V, int), DecodeError>,
) -> bool {
    match (r, m) {
        (Ok((v, np)), Ok((mv, mp))) => v@ == mv && np == mp,
        (Err(e), Err(me)) => e == me,
        _ => false,
    }
}

/// Reads the byte at `pos` and advances the cursor by 1.
pub fn read_u8(s: &[u8], pos: usize) -> (r: Result<(u8, usize), DecodeError>)
    ensures
        decode_agrees(r, spec_read_u8(s@, pos as int)),
{
    if pos < s.len() {
        Ok((s[pos], pos + 1))
    } else {
        Err(DecodeError::InsufficientData)
    }
}

/// Reads a little-endian 16-bit integer and advances the cursor by 2.
pub fn read_u16_le(s: &[u8], pos: usize) -> (r: Result<(u16, usize), DecodeError>)
    ensures
        decode_agrees(r, spec_read_u16(s@, pos as int)),
{
    if pos < s.len() && s.len() - pos >= 2 {
        let v: u16 = s[pos] as u16 + 0x100 * (s[pos + 1] as u16);
        Ok((v, pos + 2))
    } else {
        Err(DecodeError::InsufficientData)
    }
}

/// Reads a little-endian 32-bit integer and advances the cursor by 4.
pub fn read_u32_le(s: &[u8], pos: usize) -> (r: Result<(u32, usize), DecodeError>)
    ensures
        decode_agrees(r, spec_read_u32(s@, pos as int)),
{
    if pos < s.len() && s.len() - pos >= 4 {
        let v: u32 = s[pos] as u32 + 0x100 * (s[pos + 1] as u32) + 0x10000 * (s[pos + 2] as u32)
            + 0x1000000 * (s[pos + 3] as u32);
        Ok((v, pos + 4))
    } else {
        Err(DecodeError::InsufficientData)
    }
}

/// Reads a little-endian 48-bit integer, zero-extended to 64 bits, and
/// advances the cursor by 6.
pub fn read_u48_le(s: &[u8], pos: usize) -> (r: Result<(u64, usize), DecodeError>)
    ensures
        decode_agrees(r, spec_read_u48(s@, pos as int)),
{
    if pos < s.len() && s.len() - pos >= 6 {
        let v: u64 = s[pos] as u64 + 0x100 * (s[pos + 1] as u64) + 0x10000 * (s[pos + 2] as u64)
            + 0x1000000 * (s[pos + 3] as u64) + 0x100000000 * (s[pos + 4] as u64)
            + 0x10000000000 * (s[pos + 5] as u64);
        Ok((v, pos + 6))
    } else {
        Err(DecodeError::InsufficientData)
    }
}

/// Masking after a right shift stays within the mask, for each mask width
/// the bit-packed protocol fields use.
pub proof fn lemma_mask_bounds(b: u8, i: u8)
    ensures
        ((b >> i) & 1) <= 1,
        ((b >> i) & 3) <= 3,
        ((b >> i) & 7) <= 7,
{
    assert(((b >> i) & 1) <= 1) by (bit_vector);
    assert(((b >> i) & 3) <= 3) by (bit_vector);
    assert(((b >> i) & 7) <= 7) by (bit_vector);
}

/// Every bit field extracted from a zero byte is zero.
pub proof fn lemma_zero_byte_bits(i: u8)
    ensures
        ((0u8 >> i) & 1) == 0,
        ((0u8 >> i) & 3) == 0,
        ((0u8 >> i) & 7) == 0,
{
    assert(((0u8 >> i) & 1) == 0) by (bit_vector);
    assert(((0u8 >> i) & 3) == 0) by (bit_vector);
    assert(((0u8 >> i) & 7) == 0) by (bit_vector);
}

} // verus!
