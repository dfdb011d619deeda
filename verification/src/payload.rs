//! Payload dispatch: a decoded header's API id selects the payload codec.
//! Only API id 0, the network service, has a decoder; the reserved ids
//! yield a typed error.

pub mod network;

use crate::error::DecodeError;
use vstd::prelude::*;

verus! {

/// A decoded service payload; only the network variant is currently
/// produced.
#[derive(Debug, PartialEq, Eq)]
pub enum ServicePayload {
    Unknown,
    Network(network::NetworkPayload),
}

/// Ghost model of [`ServicePayload`].
pub enum ServicePayloadV {
    Unknown,
    Network(network::NetworkPayloadV),
}

impl View for ServicePayload {
    type V = ServicePayloadV;

    open spec fn view(&self) -> ServicePayloadV {
        match self {
            ServicePayload::Unknown => ServicePayloadV::Unknown,
            ServicePayload::Network(p) => ServicePayloadV::Network(p@),
        }
    }
}

/// The network-payload decode wrapped into a service payload: the full
/// declared size runs through unchanged, and any network decode error
/// propagates to the caller.
pub open spec fn spec_parse_network(s: Seq<u8>, pos: int, size: u32) -> Result<
    (ServicePayloadV, int),
    DecodeError,
> {
    match network::spec_decode_network(s, pos, size) {
        Ok((p, np)) => Ok((ServicePayloadV::Network(p), np)),
        Err(e) => Err(e),
    }
}

impl ServicePayload {
    /// Decodes a network payload of `size` declared bytes at `pos`.
    pub fn parse_network(bytes: &[u8], pos: usize, size: u32) -> (r: Result<
        (ServicePayload, usize),
        DecodeError,
    >)
        ensures
            crate::wire::decode_agrees(r, spec_parse_network(bytes@, pos as int, size)),
            r matches Ok(p) ==> pos <= p.1 && (pos <= bytes@.len() ==> p.1 <= bytes@.len()),
    {
        match network::NetworkPayload::from_bytes(bytes, pos, size) {
            Ok((p, np)) => Ok((ServicePayload::Network(p), np)),
            Err(e) => Err(e),
        }
    }
}

} // verus!
