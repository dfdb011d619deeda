//! Neighbour-beacon payload decoding: a tag byte selecting the beacon
//! variant, followed by neighbour entries whose width is driven by the
//! per-entry flag byte, with two address encodings (normal and micro) and
//! an optional trailing link-information byte for extended beacons.

use crate::error::DecodeError;
use crate::wire::{decode_agrees, le16, le24, le32, lemma_mask_bounds, read_u8, spec_read_u8};
use vstd::prelude::*;

verus! {

/// The beacon payload variant announced by the tag byte (or `ACK` for an
/// empty payload, which carries no tag byte at all).
#[derive(Clone, Copy, Debug, PartialEq, Eq, Structural)]
pub enum NetworkType {
    ACK,
    Beacon,
    RequestBeacon,
    ExtendedBeacon,
}

impl View for NetworkType {
    type V = NetworkType;

    open spec fn view(&self) -> NetworkType {
        *self
    }
}

impl NetworkType {
    /// The wire tag byte of this variant; `ACK` has none, it stands for the
    /// absence of a payload.
    pub fn value(&self) -> (r: Option<u8>)
        ensures
            r == (match *self {
                NetworkType::ACK => None::<u8>,
                NetworkType::Beacon => Some(0u8),
                NetworkType::RequestBeacon => Some(1u8),
                NetworkType::ExtendedBeacon => Some(5u8),
            }),
    {
        match self {
            NetworkType::ACK => None,
            NetworkType::Beacon => Some(0),
            NetworkType::RequestBeacon => Some(1),
            NetworkType::ExtendedBeacon => Some(5),
        }
    }
}

/// The link-information byte of an extended-beacon entry, split into its
/// packed bit fields.
#[derive(Clone, Copy, Debug, Default, PartialEq, Eq, Structural)]
pub struct NetworkInfo {
    pub packet_size: u8,
    pub speed: u8,
    pub dl_only: u8,
    pub halt: u8,
}

impl View for NetworkInfo {
    type V = NetworkInfo;

    open spec fn view(&self) -> NetworkInfo {
        *self
    }
}

/// The link-information fields packed into one byte: `packet_size` in bits
/// 0-2, `speed` in bits 3-5, `dl_only` in bit 6, `halt` in bit 7.
pub open spec fn info_from_byte(b: u8) -> NetworkInfo {
    NetworkInfo {
        packet_size: (b >> 0) & 7,
        speed: (b >> 3) & 7,
        dl_only: (b >> 6) & 1,
        halt: (b >> 7) & 1,
    }
}

impl NetworkInfo {
    /// Splits one raw link-information byte into its named fields.
    pub fn from_byte(b: u8) -> (r: NetworkInfo)
        ensures
            r == info_from_byte(b),
    {
        NetworkInfo {
            packet_size: (b >> 0) & 7,
            speed: (b >> 3) & 7,
            dl_only: (b >> 6) & 1,
            halt: (b >> 7) & 1,
        }
    }
}

/// One neighbour record of a beacon: the entry flag bits, an age byte, the
/// decoded address pair and, for extended beacons only, the link
/// information.
#[derive(Clone, Copy, Debug, PartialEq, Eq)]
pub struct NetworkEntry {
    pub dtn: u8,
    pub active: u8,
    pub size_mode: u8,
    pub addr_size: u8,
    pub hops: u8,
    pub age: u8,
    pub addr: (u32, u8),
    pub info: Option<NetworkInfo>,
}

impl View for NetworkEntry {
    type V = NetworkEntry;

    open spec fn view(&self) -> NetworkEntry {
        *self
    }
}

/// Normal-mode address decode: `addr_size` selects a 1, 2, 3 or 4-byte
/// little-endian address (3 bytes zero-extended to 32 bits), always
/// followed by exactly one qualifier byte. An `addr_size` outside its
/// 2-bit range reads nothing and yields (0, 0).
pub open spec fn spec_addr_normal(s: Seq<u8>, pos: int, addr_size: u8) -> Result<
    ((u32, u8), int),
    DecodeError,
> {
    if addr_size == 0 {
        if 0 <= pos && pos + 2 <= s.len() {
            Ok(((s[pos] as u32, s[pos + 1]), pos + 2))
        } else {
            Err(DecodeError::InsufficientData)
        }
    } else if addr_size == 1 {
        if 0 <= pos && pos + 3 <= s.len() {
            Ok(((le16(s, pos) as u32, s[pos + 2]), pos + 3))
        } else {
            Err(DecodeError::InsufficientData)
        }
    } else if addr_size == 2 {
        if 0 <= pos && pos + 4 <= s.len() {
            Ok(((le24(s, pos) as u32, s[pos + 3]), pos + 4))
        } else {
            Err(DecodeError::InsufficientData)
        }
    } else if addr_size == 3 {
        if 0 <= pos && pos + 5 <= s.len() {
            Ok(((le32(s, pos) as u32, s[pos + 4]), pos + 5))
        } else {
            Err(DecodeError::InsufficientData)
        }
    } else {
        Ok(((0, 0), pos))
    }
}

/// Micro-mode address decode: exactly one byte, bit-split by `addr_size`
/// into (address bits, qualifier bits) of (8,0), (6,2), (4,4) or (2,6),
/// the address occupying the high-order bits. An `addr_size` outside its
/// 2-bit range still consumes the byte and yields (0, 0).
pub open spec fn spec_addr_micro(s: Seq<u8>, pos: int, addr_size: u8) -> Result<
    ((u32, u8), int),
    DecodeError,
> {
    if 0 <= pos && pos + 1 <= s.len() {
        let b = s[pos];
        let av: (u32, u8) = if addr_size == 0 {
            (b as u32, 0)
        } else if addr_size == 1 {
            (((b >> 2) & 0x3f) as u32, b & 3)
        } else if addr_size == 2 {
            (((b >> 4) & 0xf) as u32, b & 0xf)
        } else if addr_size == 3 {
            (((b >> 6) & 3) as u32, b & 0x3f)
        } else {
            (0, 0)
        };
        Ok((av, pos + 1))
    } else {
        Err(DecodeError::InsufficientData)
    }
}

/// Decodes a normal-mode address: an `addr_size`-selected little-endian
/// address and one trailing qualifier byte.
pub fn addr_from_normal_mode(bytes: &[u8], pos: usize, addr_size: u8) -> (r: Result<
    ((u32, u8), usize),
    DecodeError,
>)
    requires
        addr_size < 4,
    ensures
        decode_agrees(r, spec_addr_normal(bytes@, pos as int, addr_size)),
{
    if addr_size == 0 {
        if pos < bytes.len() && bytes.len() - pos >= 2 {
            Ok(((bytes[pos] as u32, bytes[pos + 1]), pos + 2))
        } else {
            Err(DecodeError::InsufficientData)
        }
    } else if addr_size == 1 {
        if pos < bytes.len() && bytes.len() - pos >= 3 {
            let addr: u32 = bytes[pos] as u32 + 0x100 * (bytes[pos + 1] as u32);
            Ok(((addr, bytes[pos + 2]), pos + 3))
        } else {
            Err(DecodeError::InsufficientData)
        }
    } else if addr_size == 2 {
        if pos < bytes.len() && bytes.len() - pos >= 4 {
            let addr: u32 = bytes[pos] as u32 + 0x100 * (bytes[pos + 1] as u32) + 0x10000 * (
            bytes[pos + 2] as u32);
            Ok(((addr, bytes[pos + 3]), pos + 4))
        } else {
            Err(DecodeError::InsufficientData)
        }
    } else {
        if pos < bytes.len() && bytes.len() - pos >= 5 {
            let addr: u32 = bytes[pos] as u32 + 0x100 * (bytes[pos + 1] as u32) + 0x10000 * (
            bytes[pos + 2] as u32) + 0x1000000 * (bytes[pos + 3] as u32);
            Ok(((addr, bytes[pos + 4]), pos + 5))
        } else {
            Err(DecodeError::InsufficientData)
        }
    }
}

/// Decodes a micro-mode address: one byte bit-split into address and
/// qualifier.
pub fn addr_from_micro_mode(bytes: &[u8], pos: usize, addr_size: u8) -> (r: Result<
    ((u32, u8), usize),
    DecodeError,
>)
    requires
        addr_size < 4,
    ensures
        decode_agrees(r, spec_addr_micro(bytes@, pos as int, addr_size)),
{
    if pos < bytes.len() {
        let b = bytes[pos];
        let av: (u32, u8) = if addr_size == 0 {
            (b as u32, 0)
        } else if addr_size == 1 {
            (((b >> 2) & 0x3f) as u32, b & 3)
        } else if addr_size == 2 {
            (((b >> 4) & 0xf) as u32, b & 0xf)
        } else {
            (((b >> 6) & 3) as u32, b & 0x3f)
        };
        Ok((av, pos + 1))
    } else {
        Err(DecodeError::InsufficientData)
    }
}

/// Normal-mode decode with `addr_size` = 2 zero-extends the 3-byte
/// little-endian address into a 32-bit integer: the decoded value equals
/// the little-endian sum of the three bytes and stays below `0x100_0000`,
/// so the top byte is always zero.
pub proof fn lemma_normal_addr3_zero_extends(s: Seq<u8>, pos: int)
    requires
        0 <= pos,
        pos + 4 <= s.len(),
    ensures
        spec_addr_normal(s, pos, 2) == Ok::<_, DecodeError>(
            ((le24(s, pos) as u32, s[pos + 3]), pos + 4),
        ),
        le24(s, pos) == s[pos] + 0x100 * s[pos + 1] + 0x10000 * s[pos + 2],
        0 <= le24(s, pos) < 0x1000000,
{
}

/// A decoded neighbour-beacon payload: the variant and its entry list
/// (empty for `ACK` and `RequestBeacon`).
#[derive(Debug, PartialEq, Eq)]
pub struct NetworkPayload {
    pub network_type: NetworkType,
    pub entries: Vec<NetworkEntry>,
}

/// Ghost model of [`NetworkPayload`]: the entry list as a plain sequence.
pub struct NetworkPayloadV {
    pub network_type: NetworkType,
    pub entries: Seq<NetworkEntry>,
}

impl View for NetworkPayload {
    type V = NetworkPayloadV;

    open spec fn view(&self) -> NetworkPayloadV {
        NetworkPayloadV { network_type: self.network_type, entries: self.entries@ }
    }
}

/// The entry fields packed into the flag byte (`dtn` bit 7, `active` bit
/// 6, `size_mode` bit 5, `addr_size` bits 4-3, `hops` bits 2-0), joined
/// with the age byte, decoded address and optional link information.
pub open spec fn entry_from_parts(
    fb: u8,
    age: u8,
    addr: (u32, u8),
    info: Option<NetworkInfo>,
) -> NetworkEntry {
    NetworkEntry {
        dtn: (fb >> 7) & 1,
        active: (fb >> 6) & 1,
        size_mode: (fb >> 5) & 1,
        addr_size: (fb >> 3) & 3,
        hops: fb & 7,
        age,
        addr,
        info,
    }
}

/// One neighbour-entry decode: flag byte, age byte, address in the mode
/// the flag byte selects, and, when `with_info`, one trailing
/// link-information byte.
pub open spec fn spec_decode_entry(s: Seq<u8>, pos: int, with_info: bool) -> Result<
    (NetworkEntry, int),
    DecodeError,
> {
    match spec_read_u8(s, pos) {
        Err(e) => Err(e),
        Ok((fb, p1)) => match spec_read_u8(s, p1) {
            Err(e) => Err(e),
            Ok((age, p2)) => {
                let addr_size = (fb >> 3) & 3;
                match (if (fb >> 5) & 1 == 0 {
                    spec_addr_normal(s, p2, addr_size)
                } else {
                    spec_addr_micro(s, p2, addr_size)
                }) {
                    Err(e) => Err(e),
                    Ok((addr, p3)) => if with_info {
                        match spec_read_u8(s, p3) {
                            Err(e) => Err(e),
                            Ok((ib, p4)) => Ok(
                                (entry_from_parts(fb, age, addr, Some(info_from_byte(ib))), p4),
                            ),
                        }
                    } else {
                        Ok((entry_from_parts(fb, age, addr, None), p3))
                    },
                }
            },
        },
    }
}

/// How many declared payload bytes are still to be consumed at `pos`,
/// clamped at zero once the boundary is reached or overrun.
pub open spec fn remaining_budget(base: int, size: u32, pos: int) -> int {
    if pos - base < size {
        size - (pos - base)
    } else {
        0
    }
}

/// The entry loop: entries are parsed while the bytes consumed since
/// `base` stay below the declared `size`. The boundary check is on bytes
/// consumed, not entries, so a `size` that is not an exact multiple of the
/// entry width lets the final entry read past the declared boundary; this
/// wire quirk is preserved deliberately. The inner guard arm is never
/// reached, because an entry always consumes at least one byte; it only
/// makes termination of the definition self-evident.
pub open spec fn spec_decode_entries(
    s: Seq<u8>,
    base: int,
    size: u32,
    pos: int,
    with_info: bool,
) -> Result<(Seq<NetworkEntry>, int), DecodeError>
    decreases remaining_budget(base, size, pos),
{
    if pos - base >= size {
        Ok((Seq::empty(), pos))
    } else {
        match spec_decode_entry(s, pos, with_info) {
            Err(e) => Err(e),
            Ok((e, np)) => if np <= pos {
                Err(DecodeError::InsufficientData)
            } else {
                match spec_decode_entries(s, base, size, np, with_info) {
                    Err(er) => Err(er),
                    Ok((rest, fp)) => Ok((seq![e] + rest, fp)),
                }
            },
        }
    }
}

/// The network-payload decode: a declared size of 0 is an `ACK` and
/// consumes nothing; otherwise one tag byte (counted against the declared
/// size) selects plain beacon entries (tag 0), an empty request (tag 1) or
/// extended-beacon entries with link information (tag 5).
pub open spec fn spec_decode_network(s: Seq<u8>, pos: int, size: u32) -> Result<
    (NetworkPayloadV, int),
    DecodeError,
> {
    if size == 0 {
        Ok((NetworkPayloadV { network_type: NetworkType::ACK, entries: Seq::empty() }, pos))
    } else {
        match spec_read_u8(s, pos) {
            Err(e) => Err(e),
            Ok((tag, p1)) => if tag == 0 {
                match spec_decode_entries(s, pos, size, p1, false) {
                    Err(e) => Err(e),
                    Ok((es, fp)) => Ok(
                        (NetworkPayloadV { network_type: NetworkType::Beacon, entries: es }, fp),
                    ),
                }
            } else if tag == 1 {
                Ok(
                    (
                        NetworkPayloadV {
                            network_type: NetworkType::RequestBeacon,
                            entries: Seq::empty(),
                        },
                        p1,
                    ),
                )
            } else if tag == 5 {
                match spec_decode_entries(s, pos, size, p1, true) {
                    Err(e) => Err(e),
                    Ok((es, fp)) => Ok(
                        (
                            NetworkPayloadV {
                                network_type: NetworkType::ExtendedBeacon,
                                entries: es,
                            },
                            fp,
                        ),
                    ),
                }
            } else {
                Err(DecodeError::UnsupportedNetworkPacketType)
            },
        }
    }
}

impl NetworkPayload {
    /// Parses one neighbour entry at `pos`, with a trailing
    /// link-information byte when `with_info` asks for one.
    pub(crate) fn parse_entry(bytes: &[u8], pos: usize, with_info: bool) -> (r: Result<
        (NetworkEntry, usize),
        DecodeError,
    >)
        ensures
            decode_agrees(r, spec_decode_entry(bytes@, pos as int, with_info)),
            r matches Ok(p) ==> pos + 3 <= p.1 <= bytes@.len(),
    {
        let (fb, p1) = match read_u8(bytes, pos) {
            Ok(v) => v,
            Err(e) => {
                return Err(e);
            },
        };
        let (age, p2) = match read_u8(bytes, p1) {
            Ok(v) => v,
            Err(e) => {
                return Err(e);
            },
        };
        let size_mode = (fb >> 5) & 1;
        let addr_size = (fb >> 3) & 3;
        proof {
            lemma_mask_bounds(fb, 3);
        }
        let addr_r = if size_mode == 0 {
            addr_from_normal_mode(bytes, p2, addr_size)
        } else {
            addr_from_micro_mode(bytes, p2, addr_size)
        };
        let (addr, p3) = match addr_r {
            Ok(v) => v,
            Err(e) => {
                return Err(e);
            },
        };
        let entry = NetworkEntry {
            dtn: (fb >> 7) & 1,
            active: (fb >> 6) & 1,
            size_mode,
            addr_size,
            hops: fb & 7,
            age,
            addr,
            info: None,
        };
        if with_info {
            match read_u8(bytes, p3) {
                Ok((ib, p4)) => Ok((NetworkEntry { info: Some(NetworkInfo::from_byte(ib)), ..entry }, p4)),
                Err(e) => Err(e),
            }
        } else {
            Ok((entry, p3))
        }
    }

    /// Decodes a beacon payload of `size` declared bytes starting at
    /// `pos`, leaving the cursor after the last entry consumed.
    pub fn from_bytes(bytes: &[u8], pos: usize, size: u32) -> (r: Result<
        (NetworkPayload, usize),
        DecodeError,
    >)
        ensures
            decode_agrees(r, spec_decode_network(bytes@, pos as int, size)),
            r matches Ok(p) ==> pos <= p.1 && (pos <= bytes@.len() ==> p.1 <= bytes@.len()),
    {
        if size == 0 {
            return Ok((NetworkPayload { network_type: NetworkType::ACK, entries: Vec::new() }, pos));
        }
        let (tag, p1) = match read_u8(bytes, pos) {
            Ok(v) => v,
            Err(e) => {
                return Err(e);
            },
        };
        if tag == 1 {
            return Ok(
                (
                    NetworkPayload { network_type: NetworkType::RequestBeacon, entries: Vec::new() },
                    p1,
                ),
            );
        }
        if tag != 0 && tag != 5 {
            return Err(DecodeError::UnsupportedNetworkPacketType);
        }
        let with_info = tag == 5;
        let mut entries: Vec<NetworkEntry> = Vec::new();
        let mut p = p1;
        while p - pos < size as usize
            invariant
                size != 0,
                spec_read_u8(bytes@, pos as int) == Ok::<_, DecodeError>((tag, p1 as int)),
                tag == 0 || tag == 5,
                with_info == (tag == 5),
                pos < p1 <= bytes@.len(),
                p1 <= p <= bytes@.len(),
                ({
                    let full = spec_decode_entries(bytes@, pos as int, size, p1 as int, with_info);
                    match spec_decode_entries(bytes@, pos as int, size, p as int, with_info) {
                        Ok((rest, fp)) => full == Ok::<_, DecodeError>((entries@ + rest, fp)),
                        Err(e) => full == Err::<(Seq<NetworkEntry>, int), DecodeError>(e),
                    }
                }),
            decreases remaining_budget(pos as int, size, p as int),
        {
            let ghost prev_entries = entries@;
            let ghost prev_p = p as int;
            match Self::parse_entry(bytes, p, with_info) {
                Err(e) => {
                    proof {
                        assert(spec_decode_entry(bytes@, p as int, with_info) == Err::<
                            (NetworkEntry, int),
                            DecodeError,
                        >(e));
                        assert(spec_decode_entries(bytes@, pos as int, size, p as int, with_info)
                            == Err::<(Seq<NetworkEntry>, int), DecodeError>(e));
                    }
                    return Err(e);
                },
                Ok((entry, np)) => {
                    entries.push(entry);
                    p = np;
                    proof {
                        assert(spec_decode_entry(bytes@, prev_p, with_info) == Ok::<
                            _,
                            DecodeError,
                        >((entry, np as int)));
                        match spec_decode_entries(bytes@, pos as int, size, np as int, with_info) {
                            Ok((rest, fp)) => {
                                assert(prev_entries + (seq![entry] + rest) =~= entries@ + rest);
                            },
                            Err(er) => {},
                        }
                    }
                },
            }
        }
        proof {
            assert(entries@ + Seq::<NetworkEntry>::empty() =~= entries@);
        }
        let network_type = if with_info {
            NetworkType::ExtendedBeacon
        } else {
            NetworkType::Beacon
        };
        Ok((NetworkPayload { network_type, entries }, p))
    }
}

} // verus!
