use vstd::prelude::*;

verus! {

/// Opaque two-byte code identifying the implementation that produced a
/// packet.
#[derive(Clone, Copy, Debug, PartialEq, Eq)]
pub struct VendorId_t {
    pub vendor_id: [u8; 2],
}

/// The reserved all-zero vendor code: no particular vendor.
pub open spec fn vendor_unknown_bytes() -> Seq<u8> {
    seq![0u8, 0u8]
}

/// The reserved "unknown vendor" value.
pub fn vendor_unknown() -> (r: VendorId_t)
    ensures
        r.vendor_id@ == vendor_unknown_bytes(),
{
    let r = VendorId_t { vendor_id: [0u8, 0u8] };
    proof {
        assert(r.vendor_id@ =~= vendor_unknown_bytes());
    }
    r
}

} // verus!
