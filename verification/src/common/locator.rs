use vstd::prelude::*;

verus! {

/// Reserved sentinel port meaning "no specific port"; never a usable port.
pub const LOCATOR_PORT_INVALID: u32 = 0;

/// A network endpoint reachable for a given transport kind.
#[derive(Clone, Copy, Debug, PartialEq, Eq)]
pub struct Locator_t {
    /// Transport kind discriminant.
    pub kind: i32,
    /// Port number; `LOCATOR_PORT_INVALID` when no specific port is meant.
    pub port: u32,
    /// Transport address, sixteen raw bytes.
    pub address: [u8; 16],
}

} // verus!
