//! The packet codec and the frame boundary detector.
//!
//! [`ServicePacket::from_bytes`] decodes one complete frame: header,
//! payload dispatched by API id, then the optional signature and CRC
//! trailer words in that order. [`FrameAssembler`] accumulates stream
//! chunks in a growable buffer and hands the buffer to the packet codec
//! whenever its last byte is the frame terminator `0xC0`; no byte-stuffing
//! of `0xC0` inside a frame is performed, a simplification preserved from
//! the wire protocol as implemented.

use crate::error::DecodeError;
use crate::header::{spec_decode_header, CompassHeader, HeaderV};
use crate::payload::{spec_parse_network, ServicePayload, ServicePayloadV};
use crate::wire::{decode_agrees, read_u16_le, spec_read_u16};
use vstd::prelude::*;

verus! {

/// One fully decoded frame: the header, its payload, and the signature and
/// CRC trailer words (0 when their flag bit is clear; extracted, never
/// verified).
#[derive(Debug, PartialEq, Eq)]
pub struct ServicePacket {
    pub header: CompassHeader,
    pub payload: ServicePayload,
    pub sgn: u16,
    pub crc: u16,
}

/// Ghost model of [`ServicePacket`].
pub struct PacketV {
    pub header: HeaderV,
    pub payload: ServicePayloadV,
    pub sgn: u16,
    pub crc: u16,
}

impl View for ServicePacket {
    type V = PacketV;

    open spec fn view(&self) -> PacketV {
        PacketV { header: self.header@, payload: self.payload@, sgn: self.sgn, crc: self.crc }
    }
}

/// The whole-packet decode: header, then the payload selected by the API
/// id (only id 0, the network service, is supported), then a 2-byte
/// little-endian signature iff `sgn` = 1 and a 2-byte little-endian CRC
/// iff `crc` = 1. The first failing stage's error propagates unchanged.
pub open spec fn spec_decode_packet(s: Seq<u8>, pos: int) -> Result<(PacketV, int), DecodeError> {
    match spec_decode_header(s, pos) {
        Err(e) => Err(e),
        Ok((h, p1)) => match (if h.api == 0 {
            spec_parse_network(s, p1, h.payload_size)
        } else {
            Err(DecodeError::UnsupportedApi)
        }) {
            Err(e) => Err(e),
            Ok((pl, p2)) => match (if h.header_flags.sgn == 1 {
                spec_read_u16(s, p2)
            } else {
                Ok((0u16, p2))
            }) {
                Err(e) => Err(e),
                Ok((sgn, p3)) => match (if h.header_flags.crc == 1 {
                    spec_read_u16(s, p3)
                } else {
                    Ok((0u16, p3))
                }) {
                    Err(e) => Err(e),
                    Ok((crc, p4)) => Ok((PacketV { header: h, payload: pl, sgn, crc }, p4)),
                },
            },
        },
    }
}

impl ServicePacket {
    /// Decodes one complete frame starting at `pos`. Stateless: the result
    /// is a function of the bytes alone, so repeated calls on the same
    /// slice yield identical packets.
    pub fn from_bytes(bytes: &[u8], pos: usize) -> (r: Result<(ServicePacket, usize), DecodeError>)
        ensures
            decode_agrees(r, spec_decode_packet(bytes@, pos as int)),
            r matches Ok(p) ==> pos <= p.1 <= bytes@.len(),
    {
        let (header, p1) = match CompassHeader::from_raw(bytes, pos) {
            Ok(v) => v,
            Err(e) => {
                return Err(e);
            },
        };
        if header.api != 0 {
            return Err(DecodeError::UnsupportedApi);
        }
        let (payload, p2) = match ServicePayload::parse_network(bytes, p1, header.payload_size) {
            Ok(v) => v,
            Err(e) => {
                return Err(e);
            },
        };
        let (sgn, p3) = if header.header_flags.sgn == 1 {
            match read_u16_le(bytes, p2) {
                Ok(v) => v,
                Err(e) => {
                    return Err(e);
                },
            }
        } else {
            (0, p2)
        };
        let (crc, p4) = if header.header_flags.crc == 1 {
            match read_u16_le(bytes, p3) {
                Ok(v) => v,
                Err(e) => {
                    return Err(e);
                },
            }
        } else {
            (0, p3)
        };
        Ok((ServicePacket { header, payload, sgn, crc }, p4))
    }
}

/// What one call of [`FrameAssembler::feed`] produced.
#[derive(Debug, PartialEq, Eq)]
pub enum FeedResult {
    /// A complete frame decoded successfully; the consumed bytes left the
    /// buffer.
    Produced(ServicePacket),
    /// The buffer does not yet end with the frame terminator.
    NeedMoreData,
    /// A complete frame failed to decode; the frame is terminal and its
    /// buffered bytes were dropped.
    Failed(DecodeError),
}

/// Whether buffered bytes form a complete frame: the buffer is non-empty
/// and its current last byte is the terminator `0xC0`.
pub open spec fn frame_delimited(b: Seq<u8>) -> bool {
    b.len() > 0 && b[b.len() - 1] == 0xc0
}

/// Incremental frame boundary detection over one logical byte stream. The
/// assembler owns the only mutable state of the decoder, its accumulation
/// buffer, and must not be shared between streams.
pub struct FrameAssembler {
    buffer: Vec<u8>,
}

impl View for FrameAssembler {
    type V = Seq<u8>;

    closed spec fn view(&self) -> Seq<u8> {
        self.buffer@
    }
}

impl FrameAssembler {
    /// An assembler with an empty accumulation buffer.
    pub fn new() -> (r: FrameAssembler)
        ensures
            r@ == Seq::<u8>::empty(),
    {
        FrameAssembler { buffer: Vec::new() }
    }

    /// Appends `chunk` to the buffer; if the buffer then ends with the
    /// frame terminator, decodes it as one complete frame. On success the
    /// consumed bytes (the trailing terminator byte not among them) leave
    /// the buffer; on a decode error the frame is terminal and the buffer
    /// is dropped whole, so the error is not re-emitted by later calls.
    pub fn feed(&mut self, chunk: &[u8]) -> (r: FeedResult)
        ensures
            ({
                let b = old(self)@ + chunk@;
                &&& (!frame_delimited(b) ==> r == FeedResult::NeedMoreData && final(self)@ == b)
                &&& (frame_delimited(b) ==> match spec_decode_packet(b, 0) {
                    Ok((p, n)) => r matches FeedResult::Produced(pkt) && pkt@ == p && final(self)@
                        == b.skip(n),
                    Err(e) => r == FeedResult::Failed(e) && final(self)@ == Seq::<u8>::empty(),
                })
            }),
    {
        let mut incoming = vstd::slice::slice_to_vec(chunk);
        self.buffer.append(&mut incoming);
        let n = self.buffer.len();
        if n == 0 {
            return FeedResult::NeedMoreData;
        }
        if self.buffer[n - 1] != 0xc0 {
            return FeedResult::NeedMoreData;
        }
        match ServicePacket::from_bytes(self.buffer.as_slice(), 0) {
            Ok((pkt, consumed)) => {
                let tail = self.buffer.split_off(consumed);
                proof {
                    assert(tail@ =~= (old(self)@ + chunk@).skip(consumed as int));
                }
                self.buffer = tail;
                FeedResult::Produced(pkt)
            },
            Err(e) => {
                self.buffer.clear();
                FeedResult::Failed(e)
            },
        }
    }
}

/// Decoding is stateless and deterministic: the decode of a complete frame
/// is a function of the frame bytes alone, so decoding the same bytes
/// twice yields identical packets.
pub proof fn lemma_decode_deterministic(s1: Seq<u8>, s2: Seq<u8>, pos: int)
    requires
        s1 == s2,
    ensures
        spec_decode_packet(s1, pos) == spec_decode_packet(s2, pos),
{
}

} // verus!
