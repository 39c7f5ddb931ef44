use vstd::prelude::*;

verus! {

/// Protocol version carried in every header: two independent octets,
/// not a combined multi-byte integer.
#[derive(Clone, Copy, Debug, PartialEq, Eq, Structural)]
pub struct ProtocolVersion_t {
    pub major: u8,
    pub minor: u8,
}

/// Highest protocol major version this implementation supports. Any minor
/// version under an acceptable major is accepted; a higher major is rejected.
pub const SUPPORTED_MAJOR: u8 = 2;

/// Minor version this implementation speaks.
pub const SUPPORTED_MINOR: u8 = 2;

/// The full protocol version this implementation speaks.
pub open spec fn supported_version() -> ProtocolVersion_t {
    ProtocolVersion_t { major: SUPPORTED_MAJOR, minor: SUPPORTED_MINOR }
}

/// The protocol version this implementation speaks.
pub fn protocolversion() -> (r: ProtocolVersion_t)
    ensures
        r == supported_version(),
{
    ProtocolVersion_t { major: SUPPORTED_MAJOR, minor: SUPPORTED_MINOR }
}

/// Version 1.0, the lowest version a peer may announce.
pub fn protocolversion_1_0() -> (r: ProtocolVersion_t)
    ensures
        r == (ProtocolVersion_t { major: 1, minor: 0 }),
{
    ProtocolVersion_t { major: 1, minor: 0 }
}

} // verus!
