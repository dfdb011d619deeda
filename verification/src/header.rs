//! The variable-length header: a 1-to-3-byte self-terminating flag field
//! followed by the conditional fields it announces (packet id, route, API
//! id, timestamp, payload size).
//!
//! Each flag byte carries a terminator bit in its most significant
//! position: terminator = 1 means no further flag byte follows. The third
//! byte is the hard limit; if its terminator bit is still 0 the flags are
//! malformed.

pub mod network;

use crate::error::DecodeError;
use crate::header::network::RouteData;
use crate::wire::{
    decode_agrees, lemma_mask_bounds, lemma_zero_byte_bits, read_u16_le, read_u32_le, read_u48_le,
    read_u8, spec_read_u16, spec_read_u32, spec_read_u48, spec_read_u8,
};
use vstd::prelude::*;

verus! {

/// Every flag bit of the 1-to-3-byte header-flags field, one plain field
/// per bit group, in wire order from the least significant bit of byte 1.
/// Bits of bytes that were not present on the wire are zero.
#[derive(Clone, Copy, Debug, Default, PartialEq, Eq, Structural)]
pub struct CompassHeaderFlags {
    // byte 1, bits 0-7
    pub pidset: u8,
    pub refset: u8,
    pub api: u8,
    pub dtn: u8,
    pub adtn: u8,
    pub sizelen0: u8,
    pub routeset: u8,
    pub halt0: u8,
    // byte 2, bits 0-7 (present iff halt0 == 0)
    pub sgn: u8,
    pub crc: u8,
    pub rsv: u8,
    pub time: u8,
    pub sizelen1: u8,
    pub api16: u8,
    pub halt1: u8,
    // byte 3, bits 0-7 (present iff halt0 == 0 and halt1 == 0)
    pub null: u8,
    pub err: u8,
    pub urg: u8,
    pub enc: u8,
    pub zip: u8,
    pub halt2: u8,
}

impl View for CompassHeaderFlags {
    type V = CompassHeaderFlags;

    open spec fn view(&self) -> CompassHeaderFlags {
        *self
    }
}

/// The flag fields packed into the three raw bytes, each field its masked
/// bit group.
pub open spec fn flags_from_bytes(b0: u8, b1: u8, b2: u8) -> CompassHeaderFlags {
    CompassHeaderFlags {
        pidset: (b0 >> 0) & 1,
        refset: (b0 >> 1) & 1,
        api: (b0 >> 2) & 1,
        dtn: (b0 >> 3) & 1,
        adtn: (b0 >> 4) & 1,
        sizelen0: (b0 >> 5) & 1,
        routeset: (b0 >> 6) & 1,
        halt0: (b0 >> 7) & 1,
        sgn: (b1 >> 0) & 1,
        crc: (b1 >> 1) & 1,
        rsv: (b1 >> 2) & 3,
        time: (b1 >> 4) & 1,
        sizelen1: (b1 >> 5) & 1,
        api16: (b1 >> 6) & 1,
        halt1: (b1 >> 7) & 1,
        null: (b2 >> 0) & 7,
        err: (b2 >> 3) & 1,
        urg: (b2 >> 4) & 1,
        enc: (b2 >> 5) & 1,
        zip: (b2 >> 6) & 1,
        halt2: (b2 >> 7) & 1,
    }
}

impl CompassHeaderFlags {
    /// Every field stays within its bit width.
    pub open spec fn wf(self) -> bool {
        &&& self.pidset <= 1
        &&& self.refset <= 1
        &&& self.api <= 1
        &&& self.dtn <= 1
        &&& self.adtn <= 1
        &&& self.sizelen0 <= 1
        &&& self.routeset <= 1
        &&& self.halt0 <= 1
        &&& self.sgn <= 1
        &&& self.crc <= 1
        &&& self.rsv <= 3
        &&& self.time <= 1
        &&& self.sizelen1 <= 1
        &&& self.api16 <= 1
        &&& self.halt1 <= 1
        &&& self.null <= 7
        &&& self.err <= 1
        &&& self.urg <= 1
        &&& self.enc <= 1
        &&& self.zip <= 1
        &&& self.halt2 <= 1
    }

    /// The payload-size selector announced by the flags:
    /// `sizelen0` * 2 + `sizelen1`.
    pub open spec fn size_selector(self) -> u8 {
        (self.sizelen0 * 2 + self.sizelen1) as u8
    }
}

/// Flag fields extracted from any bytes are well formed.
pub proof fn lemma_flags_from_bytes_wf(b0: u8, b1: u8, b2: u8)
    ensures
        flags_from_bytes(b0, b1, b2).wf(),
{
    lemma_mask_bounds(b0, 0);
    lemma_mask_bounds(b0, 1);
    lemma_mask_bounds(b0, 2);
    lemma_mask_bounds(b0, 3);
    lemma_mask_bounds(b0, 4);
    lemma_mask_bounds(b0, 5);
    lemma_mask_bounds(b0, 6);
    lemma_mask_bounds(b0, 7);
    lemma_mask_bounds(b1, 0);
    lemma_mask_bounds(b1, 1);
    lemma_mask_bounds(b1, 2);
    lemma_mask_bounds(b1, 4);
    lemma_mask_bounds(b1, 5);
    lemma_mask_bounds(b1, 6);
    lemma_mask_bounds(b1, 7);
    lemma_mask_bounds(b2, 0);
    lemma_mask_bounds(b2, 3);
    lemma_mask_bounds(b2, 4);
    lemma_mask_bounds(b2, 5);
    lemma_mask_bounds(b2, 6);
    lemma_mask_bounds(b2, 7);
}

/// The variable-length flag-field decode: byte 1 always; byte 2 iff byte
/// 1's terminator bit is 0; byte 3 iff byte 2's terminator bit is also 0.
/// Malformed when the bytes run out before the chain terminates, or when
/// all three terminator bits are 0.
pub open spec fn spec_decode_flags(s: Seq<u8>, pos: int) -> Result<
    (CompassHeaderFlags, int),
    DecodeError,
> {
    if pos < 0 || pos >= s.len() {
        Err(DecodeError::MalformedHeader)
    } else if (s[pos] >> 7) & 1 == 1 {
        Ok((flags_from_bytes(s[pos], 0, 0), pos + 1))
    } else if pos + 1 >= s.len() {
        Err(DecodeError::MalformedHeader)
    } else if (s[pos + 1] >> 7) & 1 == 1 {
        Ok((flags_from_bytes(s[pos], s[pos + 1], 0), pos + 2))
    } else if pos + 2 >= s.len() {
        Err(DecodeError::MalformedHeader)
    } else if (s[pos + 2] >> 7) & 1 == 1 {
        Ok((flags_from_bytes(s[pos], s[pos + 1], s[pos + 2]), pos + 3))
    } else {
        Err(DecodeError::MalformedHeader)
    }
}

impl CompassHeaderFlags {
    /// Packs three raw flag bytes into their named fields; bytes absent
    /// from the wire are passed as 0.
    pub fn from_parts(b0: u8, b1: u8, b2: u8) -> (r: CompassHeaderFlags)
        ensures
            r == flags_from_bytes(b0, b1, b2),
            r.wf(),
    {
        proof {
            lemma_flags_from_bytes_wf(b0, b1, b2);
        }
        CompassHeaderFlags {
            pidset: (b0 >> 0) & 1,
            refset: (b0 >> 1) & 1,
            api: (b0 >> 2) & 1,
            dtn: (b0 >> 3) & 1,
            adtn: (b0 >> 4) & 1,
            sizelen0: (b0 >> 5) & 1,
            routeset: (b0 >> 6) & 1,
            halt0: (b0 >> 7) & 1,
            sgn: (b1 >> 0) & 1,
            crc: (b1 >> 1) & 1,
            rsv: (b1 >> 2) & 3,
            time: (b1 >> 4) & 1,
            sizelen1: (b1 >> 5) & 1,
            api16: (b1 >> 6) & 1,
            halt1: (b1 >> 7) & 1,
            null: (b2 >> 0) & 7,
            err: (b2 >> 3) & 1,
            urg: (b2 >> 4) & 1,
            enc: (b2 >> 5) & 1,
            zip: (b2 >> 6) & 1,
            halt2: (b2 >> 7) & 1,
        }
    }

    /// Decodes the flag field starting at `pos` and returns the flags with
    /// the cursor advanced past the 1, 2 or 3 bytes consumed.
    pub fn from_bytes_buf(bytes: &[u8], pos: usize) -> (r: Result<
        (CompassHeaderFlags, usize),
        DecodeError,
    >)
        ensures
            decode_agrees(r, spec_decode_flags(bytes@, pos as int)),
            r matches Ok(p) ==> p.0.wf() && pos < p.1 <= bytes@.len(),
    {
        if pos >= bytes.len() {
            return Err(DecodeError::MalformedHeader);
        }
        let b0 = bytes[pos];
        if (b0 >> 7) & 1 == 1 {
            return Ok((Self::from_parts(b0, 0, 0), pos + 1));
        }
        if pos + 1 >= bytes.len() {
            return Err(DecodeError::MalformedHeader);
        }
        let b1 = bytes[pos + 1];
        if (b1 >> 7) & 1 == 1 {
            return Ok((Self::from_parts(b0, b1, 0), pos + 2));
        }
        if pos + 2 >= bytes.len() {
            return Err(DecodeError::MalformedHeader);
        }
        let b2 = bytes[pos + 2];
        if (b2 >> 7) & 1 == 1 {
            return Ok((Self::from_parts(b0, b1, b2), pos + 3));
        }
        Err(DecodeError::MalformedHeader)
    }

    /// Decodes the flag field at the start of `bytes` without reporting how
    /// many bytes it occupied.
    pub fn from_raw(bytes: &[u8]) -> (r: Result<CompassHeaderFlags, DecodeError>)
        ensures
            ({
                let m = spec_decode_flags(bytes@, 0);
                match r {
                    Ok(f) => m matches Ok(p) && f == p.0 && f.wf(),
                    Err(e) => m == Err::<(CompassHeaderFlags, int), DecodeError>(e),
                }
            }),
    {
        match Self::from_bytes_buf(bytes, 0) {
            Ok((f, _)) => Ok(f),
            Err(e) => Err(e),
        }
    }
}

/// The fully assembled header. Immutable once built; fields whose presence
/// bit is 0 hold their zero default.
#[derive(Debug, PartialEq, Eq)]
pub struct CompassHeader {
    pub header_flags: CompassHeaderFlags,
    pub pid: u16,
    pub route: RouteData,
    pub api: u16,
    pub time: u64,
    pub payload_size: u32,
}

/// Ghost model of [`CompassHeader`]: the same fields with the route as a
/// plain sequence of address pairs.
pub struct HeaderV {
    pub header_flags: CompassHeaderFlags,
    pub pid: u16,
    pub route: Seq<(u16, u16)>,
    pub api: u16,
    pub time: u64,
    pub payload_size: u32,
}

impl View for CompassHeader {
    type V = HeaderV;

    open spec fn view(&self) -> HeaderV {
        HeaderV {
            header_flags: self.header_flags,
            pid: self.pid,
            route: self.route@,
            api: self.api,
            time: self.time,
            payload_size: self.payload_size,
        }
    }
}

/// Whether `size` can be carried by the payload-size field under
/// `selector`: selector 0 encodes only 0, selector 1 any 32-bit size,
/// selector 2 one byte, selector 3 two bytes.
pub open spec fn size_encodable(selector: u8, size: u32) -> bool {
    if selector == 0 {
        size == 0
    } else if selector == 1 {
        true
    } else if selector == 2 {
        size < 0x100
    } else if selector == 3 {
        size < 0x10000
    } else {
        false
    }
}

/// The little-endian bytes of the payload-size field under `selector`:
/// none, 4, 1 or 2 of them.
pub open spec fn spec_encode_payload_size(selector: u8, size: u32) -> Seq<u8> {
    if selector == 0 {
        Seq::empty()
    } else if selector == 1 {
        seq![
            (size % 0x100) as u8,
            ((size / 0x100) % 0x100) as u8,
            ((size / 0x10000) % 0x100) as u8,
            ((size / 0x1000000) % 0x100) as u8,
        ]
    } else if selector == 2 {
        seq![(size % 0x100) as u8]
    } else {
        seq![(size % 0x100) as u8, ((size / 0x100) % 0x100) as u8]
    }
}

/// The payload-size read selected by `selector`: 0 reads nothing and means
/// size 0; 1 reads 4 bytes; 2 reads 1 byte; 3 reads 2 bytes, all
/// little-endian. A selector outside its 2-bit range reads nothing.
pub open spec fn spec_read_payload_size(s: Seq<u8>, pos: int, selector: u8) -> Result<
    (u32, int),
    DecodeError,
> {
    if selector == 1 {
        spec_read_u32(s, pos)
    } else if selector == 2 {
        match spec_read_u8(s, pos) {
            Ok((v, np)) => Ok((v as u32, np)),
            Err(e) => Err(e),
        }
    } else if selector == 3 {
        match spec_read_u16(s, pos) {
            Ok((v, np)) => Ok((v as u32, np)),
            Err(e) => Err(e),
        }
    } else {
        Ok((0, pos))
    }
}

/// Reads the payload-size field announced by `selector`.
pub fn read_payload_size(s: &[u8], pos: usize, selector: u8) -> (r: Result<
    (u32, usize),
    DecodeError,
>)
    ensures
        decode_agrees(r, spec_read_payload_size(s@, pos as int, selector)),
{
    if selector == 1 {
        read_u32_le(s, pos)
    } else if selector == 2 {
        match read_u8(s, pos) {
            Ok((v, np)) => Ok((v as u32, np)),
            Err(e) => Err(e),
        }
    } else if selector == 3 {
        match read_u16_le(s, pos) {
            Ok((v, np)) => Ok((v as u32, np)),
            Err(e) => Err(e),
        }
    } else {
        Ok((0, pos))
    }
}

/// Encodes `size` as the little-endian payload-size field under
/// `selector`.
pub fn encode_payload_size(selector: u8, size: u32) -> (r: Vec<u8>)
    requires
        size_encodable(selector, size),
    ensures
        r@ == spec_encode_payload_size(selector, size),
{
    let mut out: Vec<u8> = Vec::new();
    if selector == 0 {
        assert(out@ =~= spec_encode_payload_size(selector, size));
    } else if selector == 1 {
        out.push((size % 0x100) as u8);
        out.push(((size / 0x100) % 0x100) as u8);
        out.push(((size / 0x10000) % 0x100) as u8);
        out.push(((size / 0x1000000) % 0x100) as u8);
        assert(out@ =~= spec_encode_payload_size(selector, size));
    } else if selector == 2 {
        out.push((size % 0x100) as u8);
        assert(out@ =~= spec_encode_payload_size(selector, size));
    } else {
        out.push((size % 0x100) as u8);
        out.push(((size / 0x100) % 0x100) as u8);
        assert(out@ =~= spec_encode_payload_size(selector, size));
    }
    out
}

/// The API-id read announced by the flags: absent (0) when `api` = 0, one
/// byte when `api16` = 0, two little-endian bytes when `api16` = 1.
pub open spec fn spec_read_api(s: Seq<u8>, pos: int, f: CompassHeaderFlags) -> Result<
    (u16, int),
    DecodeError,
> {
    if f.api != 1 {
        Ok((0, pos))
    } else if f.api16 == 1 {
        spec_read_u16(s, pos)
    } else {
        match spec_read_u8(s, pos) {
            Ok((v, np)) => Ok((v as u16, np)),
            Err(e) => Err(e),
        }
    }
}

/// The timestamp read announced by the flags: 6 little-endian bytes
/// zero-extended to 64 bits when `time` = 1, else absent and 0.
pub open spec fn spec_read_time(s: Seq<u8>, pos: int, f: CompassHeaderFlags) -> Result<
    (u64, int),
    DecodeError,
> {
    if f.time == 1 {
        spec_read_u48(s, pos)
    } else {
        Ok((0, pos))
    }
}

/// The full header decode, in wire order: flags, then unconditionally the
/// 2-byte packet id (read even when `pidset` = 0, preserved as a known
/// protocol quirk), the 4-byte standard route (source then destination
/// pair, each id zero-extended to 16 bits) unless `routeset` = 1 which is
/// unsupported, then the conditional API id, timestamp and payload-size
/// fields.
pub open spec fn spec_decode_header(s: Seq<u8>, pos: int) -> Result<(HeaderV, int), DecodeError> {
    match spec_decode_flags(s, pos) {
        Err(e) => Err(e),
        Ok((f, p1)) => match spec_read_u16(s, p1) {
            Err(e) => Err(e),
            Ok((pid, p2)) => {
                if f.routeset == 1 {
                    Err(DecodeError::UnsupportedRouteFormat)
                } else if p2 + 4 > s.len() {
                    Err(DecodeError::InsufficientData)
                } else {
                    let route = seq![
                        (s[p2] as u16, s[p2 + 1] as u16),
                        (s[p2 + 2] as u16, s[p2 + 3] as u16),
                    ];
                    match spec_read_api(s, p2 + 4, f) {
                        Err(e) => Err(e),
                        Ok((api, p3)) => match spec_read_time(s, p3, f) {
                            Err(e) => Err(e),
                            Ok((time, p4)) => match spec_read_payload_size(
                                s,
                                p4,
                                f.size_selector(),
                            ) {
                                Err(e) => Err(e),
                                Ok((payload_size, p5)) => Ok(
                                    (
                                        HeaderV {
                                            header_flags: f,
                                            pid,
                                            route,
                                            api,
                                            time,
                                            payload_size,
                                        },
                                        p5,
                                    ),
                                ),
                            },
                        },
                    }
                }
            },
        },
    }
}

impl CompassHeader {
    /// Assembles the full header from the bytes at `pos`, returning it with
    /// the cursor left at the first payload byte.
    pub fn from_raw(bytes: &[u8], pos: usize) -> (r: Result<(CompassHeader, usize), DecodeError>)
        ensures
            decode_agrees(r, spec_decode_header(bytes@, pos as int)),
            r matches Ok(p) ==> p.0.header_flags.wf() && pos <= p.1 <= bytes@.len(),
    {
        let (flags, p1) = match CompassHeaderFlags::from_bytes_buf(bytes, pos) {
            Ok(fp) => fp,
            Err(e) => {
                return Err(e);
            },
        };
        let (pid, p2) = match read_u16_le(bytes, p1) {
            Ok(v) => v,
            Err(e) => {
                return Err(e);
            },
        };
        if flags.routeset == 1 {
            return Err(DecodeError::UnsupportedRouteFormat);
        }
        if bytes.len() - p2 < 4 {
            return Err(DecodeError::InsufficientData);
        }
        let mut route = RouteData { entries: Vec::new() };
        route.add((bytes[p2] as u16, bytes[p2 + 1] as u16));
        route.add((bytes[p2 + 2] as u16, bytes[p2 + 3] as u16));
        proof {
            assert(route@ =~= seq![
                (bytes@[p2 as int] as u16, bytes@[p2 as int + 1] as u16),
                (bytes@[p2 as int + 2] as u16, bytes@[p2 as int + 3] as u16),
            ]);
        }
        let p3 = p2 + 4;
        let (api, p4) = if flags.api == 1 {
            if flags.api16 == 1 {
                match read_u16_le(bytes, p3) {
                    Ok(v) => v,
                    Err(e) => {
                        return Err(e);
                    },
                }
            } else {
                match read_u8(bytes, p3) {
                    Ok((v, np)) => (v as u16, np),
                    Err(e) => {
                        return Err(e);
                    },
                }
            }
        } else {
            (0, p3)
        };
        let (time, p5) = if flags.time == 1 {
            match read_u48_le(bytes, p4) {
                Ok(v) => v,
                Err(e) => {
                    return Err(e);
                },
            }
        } else {
            (0, p4)
        };
        let selector: u8 = flags.sizelen0 * 2 + flags.sizelen1;
        let (payload_size, p6) = match read_payload_size(bytes, p5, selector) {
            Ok(v) => v,
            Err(e) => {
                return Err(e);
            },
        };
        Ok(
            (
                CompassHeader { header_flags: flags, pid, route, api, time, payload_size },
                p6,
            ),
        )
    }
}

/// Round trip of the payload-size field: for every selector, a size the
/// selector can carry decodes from its own encoding to the identical size,
/// consuming exactly the encoded bytes.
pub proof fn lemma_payload_size_round_trip(selector: u8, size: u32)
    requires
        size_encodable(selector, size),
    ensures
        spec_read_payload_size(spec_encode_payload_size(selector, size), 0, selector)
            == Ok::<(u32, int), DecodeError>(
            (size, spec_encode_payload_size(selector, size).len() as int),
        ),
{
    let v = size as int;
    vstd::arithmetic::div_mod::lemma_fundamental_div_mod(v, 0x100);
    vstd::arithmetic::div_mod::lemma_fundamental_div_mod(v / 0x100, 0x100);
    vstd::arithmetic::div_mod::lemma_fundamental_div_mod(v / 0x10000, 0x100);
    vstd::arithmetic::div_mod::lemma_fundamental_div_mod(v / 0x1000000, 0x100);
    vstd::arithmetic::div_mod::lemma_div_denominator(v, 0x100, 0x100);
    vstd::arithmetic::div_mod::lemma_div_denominator(v, 0x10000, 0x100);
}

/// A 1-byte flag field (terminator bit of byte 1 set) consumes exactly one
/// byte, and every field of bytes 2 and 3 reads as zero.
pub proof fn lemma_flags_one_byte(s: Seq<u8>, pos: int)
    requires
        0 <= pos < s.len(),
        (s[pos] >> 7) & 1 == 1,
    ensures
        spec_decode_flags(s, pos) == Ok::<_, DecodeError>((flags_from_bytes(s[pos], 0, 0), pos + 1)),
        ({
            let f = flags_from_bytes(s[pos], 0, 0);
            &&& f.sgn == 0
            &&& f.crc == 0
            &&& f.rsv == 0
            &&& f.time == 0
            &&& f.sizelen1 == 0
            &&& f.api16 == 0
            &&& f.halt1 == 0
            &&& f.null == 0
            &&& f.err == 0
            &&& f.urg == 0
            &&& f.enc == 0
            &&& f.zip == 0
            &&& f.halt2 == 0
        }),
{
    lemma_zero_byte_bits(0);
    lemma_zero_byte_bits(1);
    lemma_zero_byte_bits(2);
    lemma_zero_byte_bits(3);
    lemma_zero_byte_bits(4);
    lemma_zero_byte_bits(5);
    lemma_zero_byte_bits(6);
    lemma_zero_byte_bits(7);
}

/// The extension chain: terminator bits (0, 1) consume exactly 2 bytes,
/// (0, 0, 1) exactly 3, and (0, 0, 0) is a malformed header.
pub proof fn lemma_flags_extension(s: Seq<u8>, pos: int)
    requires
        0 <= pos,
        pos + 2 <= s.len(),
        (s[pos] >> 7) & 1 == 0,
    ensures
        (s[pos + 1] >> 7) & 1 == 1 ==> spec_decode_flags(s, pos) == Ok::<_, DecodeError>(
            (flags_from_bytes(s[pos], s[pos + 1], 0), pos + 2),
        ),
        pos + 3 <= s.len() && (s[pos + 1] >> 7) & 1 == 0 && (s[pos + 2] >> 7) & 1 == 1
            ==> spec_decode_flags(s, pos) == Ok::<_, DecodeError>(
            (flags_from_bytes(s[pos], s[pos + 1], s[pos + 2]), pos + 3),
        ),
        pos + 3 <= s.len() && (s[pos + 1] >> 7) & 1 == 0 && (s[pos + 2] >> 7) & 1 == 0
            ==> spec_decode_flags(s, pos) == Err::<(CompassHeaderFlags, int), DecodeError>(
            DecodeError::MalformedHeader,
        ),
{
    lemma_mask_bounds(s[pos + 1], 7);
    if pos + 3 <= s.len() {
        lemma_mask_bounds(s[pos + 2], 7);
    }
}

} // verus!
