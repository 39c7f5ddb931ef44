use vstd::prelude::*;

verus! {

/// Twelve-byte prefix identifying a protocol participant.
#[derive(Clone, Copy, Debug, PartialEq, Eq)]
pub struct GuidPrefix_t {
    pub bytes: [u8; 12],
}

/// The all-zero sentinel prefix: never a real participant. Callers must
/// check for it before using a prefix as an identifier.
pub open spec fn guidprefix_unknown_bytes() -> Seq<u8> {
    Seq::new(12, |i: int| 0u8)
}

/// The all-zero "unknown participant" sentinel.
pub fn guidprefix_unknown() -> (r: GuidPrefix_t)
    ensures
        r.bytes@ == guidprefix_unknown_bytes(),
{
    let r = GuidPrefix_t { bytes: [0u8; 12] };
    proof {
        assert(r.bytes@ =~= guidprefix_unknown_bytes());
    }
    r
}

} // verus!
