use vstd::prelude::*;

verus! {

/// Why a frame failed to decode. Every error is terminal for the current
/// frame: no partial packet is ever produced, and the framing layer's
/// "need more data" signal is deliberately not among these.
#[derive(Clone, Copy, Debug, PartialEq, Eq, Structural)]
pub enum DecodeError {
    /// The header-flags field never terminates within its 3-byte cap, or too
    /// few bytes are present to follow the terminator-bit chain.
    MalformedHeader,
    /// The alternate route encoding (`routeset` = 1) is not specified by the
    /// protocol as implemented.
    UnsupportedRouteFormat,
    /// An API id other than 0 names a service with no payload decoder.
    UnsupportedApi,
    /// A beacon tag byte outside {0, 1, 5}.
    UnsupportedNetworkPacketType,
    /// A fixed-width read inside a frame that was declared complete ran out
    /// of bytes; unlike "need more data" this is never retried.
    InsufficientData,
}

} // verus!
