//! Decoder for a compact, bit-packed telemetry/command protocol with a
//! self-describing variable-length header: every field after the first byte
//! is optional, its presence signalled by flag bits decoded earlier in the
//! same header.
//!
//! The pipeline runs frame -> header flags -> header -> payload -> trailer:
//! [`packet::FrameAssembler`] detects frame boundaries in a byte stream and
//! hands complete frames to [`packet::ServicePacket::from_bytes`], which
//! assembles a [`header::CompassHeader`], dispatches the payload by API id
//! (currently to the neighbour-beacon decoder in [`payload::network`]), and
//! extracts the optional signature and CRC trailer fields.

pub mod error;
pub mod header;
pub mod packet;
pub mod payload;
pub mod wire;
