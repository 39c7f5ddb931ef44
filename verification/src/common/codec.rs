use vstd::prelude::*;

verus! {

/// Byte-order selection accepted by every encode/decode call, for interface
/// uniformity with the rest of the protocol's codecs. None of the structures
/// in this layer contain order-sensitive multi-byte integers, so their wire
/// image is the same under either selection.
#[derive(Clone, Copy, Debug, PartialEq, Eq, Structural)]
pub enum Endianness {
    LittleEndian,
    BigEndian,
}

/// Decoding failure. No partial structure is ever returned: on failure the
/// caller discards the whole datagram.
#[derive(Clone, Copy, Debug, PartialEq, Eq, Structural)]
pub enum DecodeError {
    /// Fewer bytes were available than the fixed-size structure requires.
    TruncatedInput,
}

} // verus!
