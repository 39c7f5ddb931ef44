use vstd::prelude::*;

verus! {

/// Identifies a packet as RTPS: four fixed ASCII bytes at offset zero of
/// every packet.
#[derive(Clone, Copy, Debug, PartialEq, Eq)]
pub struct ProtocolId_t {
    pub protocol_id: [u8; 4],
}

/// The magic bytes 'R','T','P','S' that a header's protocol id must equal
/// for the packet to be accepted.
pub open spec fn rtps_magic() -> Seq<u8> {
    seq![0x52u8, 0x54u8, 0x50u8, 0x53u8]
}

/// The fixed RTPS protocol identifier.
pub fn protocol_rtps() -> (r: ProtocolId_t)
    ensures
        r.protocol_id@ == rtps_magic(),
{
    let r = ProtocolId_t { protocol_id: [0x52u8, 0x54u8, 0x50u8, 0x53u8] };
    proof {
        assert(r.protocol_id@ =~= rtps_magic());
    }
    r
}

} // verus!
