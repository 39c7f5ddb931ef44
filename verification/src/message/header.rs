use vstd::prelude::*;

use crate::common::codec::DecodeError;
use crate::common::codec::Endianness;
use crate::common::guid_prefix::GuidPrefix_t;
use crate::common::protocol_id::ProtocolId_t;
use crate::common::protocol_id::protocol_rtps;
use crate::common::protocol_id::rtps_magic;
use crate::common::protocol_version::ProtocolVersion_t;
use crate::common::protocol_version::SUPPORTED_MAJOR;
use crate::common::protocol_version::protocolversion;
use crate::common::protocol_version::supported_version;
use crate::common::vendor_id::VendorId_t;
use crate::common::vendor_id::vendor_unknown;
use crate::common::vendor_id::vendor_unknown_bytes;

verus! {

/// Fixed leading structure of every RTPS packet: identifies the packet as
/// RTPS and names its originating participant. Exactly twenty bytes on the
/// wire, immutable after construction.
#[derive(Clone, Copy, Debug, PartialEq, Eq)]
pub struct Header {
    pub protocol_id: ProtocolId_t,
    pub protocol_version: ProtocolVersion_t,
    pub vendor_id: VendorId_t,
    pub guid_prefix: GuidPrefix_t,
}

/// A header is valid exactly when its protocol id is the RTPS magic and its
/// major version is one this implementation supports. Any minor version under
/// an acceptable major is accepted; a higher major is rejected outright.
pub open spec fn spec_valid(h: Header) -> bool {
    h.protocol_id.protocol_id@ == rtps_magic() && h.protocol_version.major <= SUPPORTED_MAJOR
}

/// The twenty-byte wire image of a header, in field order
/// `protocol_id(4) | version(2) | vendor_id(2) | guid_prefix(12)`. Every
/// field is a fixed byte sequence or an independent octet, so the image does
/// not depend on a byte-order selection.
pub open spec fn spec_header_bytes(h: Header) -> Seq<u8> {
    h.protocol_id.protocol_id@ + seq![h.protocol_version.major, h.protocol_version.minor]
        + h.vendor_id.vendor_id@ + h.guid_prefix.bytes@
}

impl Header {
    /// Builds the header of an outbound packet: the fixed protocol magic, the
    /// highest supported protocol version, the unknown vendor id, and the
    /// given participant prefix. No failure mode.
    pub fn new(guid: GuidPrefix_t) -> (r: Header)
        ensures
            r.protocol_id.protocol_id@ == rtps_magic(),
            r.protocol_version == supported_version(),
            r.vendor_id.vendor_id@ == vendor_unknown_bytes(),
            r.guid_prefix == guid,
            spec_valid(r),
    {
        Header {
            protocol_id: protocol_rtps(),
            protocol_version: protocolversion(),
            vendor_id: vendor_unknown(),
            guid_prefix: guid,
        }
    }

    /// Validity gate, checked explicitly by the caller after decoding: a
    /// datagram whose header is invalid is discarded without looking at any
    /// submessage.
    pub fn valid(&self) -> (r: bool)
        ensures
            r == spec_valid(*self),
    {
        let magic_ok = self.protocol_id.protocol_id[0] == 0x52 && self.protocol_id.protocol_id[1]
            == 0x54 && self.protocol_id.protocol_id[2] == 0x50 && self.protocol_id.protocol_id[3]
            == 0x53;
        proof {
            if magic_ok {
                assert(self.protocol_id.protocol_id@ =~= rtps_magic());
            } else {
                assert(self.protocol_id.protocol_id@ != rtps_magic());
            }
        }
        magic_ok && self.protocol_version.major <= SUPPORTED_MAJOR
    }

    /// Emits exactly the twenty bytes of `spec_header_bytes`. The byte-order
    /// selection is accepted for interface uniformity and cannot influence the
    /// result, as the postcondition does not mention it.
    pub fn encode(&self, _endianness: Endianness) -> (r: Vec<u8>)
        ensures
            r@ == spec_header_bytes(*self),
            r@.len() == 20,
    {
        let mut out: Vec<u8> = Vec::new();
        out.push(self.protocol_id.protocol_id[0]);
        out.push(self.protocol_id.protocol_id[1]);
        out.push(self.protocol_id.protocol_id[2]);
        out.push(self.protocol_id.protocol_id[3]);
        out.push(self.protocol_version.major);
        out.push(self.protocol_version.minor);
        out.push(self.vendor_id.vendor_id[0]);
        out.push(self.vendor_id.vendor_id[1]);
        let ghost fixed_fields = out@;
        proof {
            assert(fixed_fields + self.guid_prefix.bytes@.subrange(0, 0) =~= fixed_fields);
        }
        for i in 0..12
            invariant
                out@ == fixed_fields + self.guid_prefix.bytes@.subrange(0, i as int),
        {
            out.push(self.guid_prefix.bytes[i]);
            proof {
                assert(out@ =~= fixed_fields + self.guid_prefix.bytes@.subrange(0, i + 1));
            }
        }
        proof {
            assert(self.guid_prefix.bytes@.subrange(0, 12) =~= self.guid_prefix.bytes@);
            assert(out@ =~= spec_header_bytes(*self));
        }
        out
    }

    /// Reads the twenty header bytes back into structured fields. Fails with
    /// `TruncatedInput` exactly when fewer than twenty bytes are available;
    /// decoding never inspects validity. The byte-order selection is accepted
    /// for interface uniformity and cannot influence the result.
    pub fn decode(bytes: &[u8], _endianness: Endianness) -> (r: Result<Header, DecodeError>)
        ensures
            bytes@.len() >= 20 ==> (r matches Ok(h) && spec_header_bytes(h) == bytes@.subrange(
                0,
                20,
            )),
            bytes@.len() < 20 ==> r == Err::<Header, DecodeError>(DecodeError::TruncatedInput),
    {
        if bytes.len() < 20 {
            return Err(DecodeError::TruncatedInput);
        }
        let h = Header {
            protocol_id: ProtocolId_t { protocol_id: [bytes[0], bytes[1], bytes[2], bytes[3]] },
            protocol_version: ProtocolVersion_t { major: bytes[4], minor: bytes[5] },
            vendor_id: VendorId_t { vendor_id: [bytes[6], bytes[7]] },
            guid_prefix: GuidPrefix_t {
                bytes: [
                    bytes[8],
                    bytes[9],
                    bytes[10],
                    bytes[11],
                    bytes[12],
                    bytes[13],
                    bytes[14],
                    bytes[15],
                    bytes[16],
                    bytes[17],
                    bytes[18],
                    bytes[19],
                ],
            },
        };
        proof {
            assert(spec_header_bytes(h) =~= bytes@.subrange(0, 20));
        }
        Ok(h)
    }
}

/// Wire injectivity: two headers with the same wire image are the same
/// header. Together with the contracts of `encode` and `decode` this gives
/// the round trip: for every header and either byte-order selection, decoding
/// the bytes that `encode` produced yields exactly the encoded header.
pub proof fn lemma_header_round_trip(h: Header, decoded: Header)
    requires
        spec_header_bytes(decoded) == spec_header_bytes(h),
    ensures
        decoded == h,
{
    assert forall|i: int| 0 <= i < 4 implies decoded.protocol_id.protocol_id[i]
        == h.protocol_id.protocol_id[i] by {
        assert(decoded.protocol_id.protocol_id[i] == spec_header_bytes(decoded)[i]);
        assert(h.protocol_id.protocol_id[i] == spec_header_bytes(h)[i]);
    }
    assert(decoded.protocol_id.protocol_id =~= h.protocol_id.protocol_id);
    assert(decoded.protocol_version.major == spec_header_bytes(decoded)[4]);
    assert(h.protocol_version.major == spec_header_bytes(h)[4]);
    assert(decoded.protocol_version.minor == spec_header_bytes(decoded)[5]);
    assert(h.protocol_version.minor == spec_header_bytes(h)[5]);
    assert forall|i: int| 0 <= i < 2 implies decoded.vendor_id.vendor_id[i]
        == h.vendor_id.vendor_id[i] by {
        assert(decoded.vendor_id.vendor_id[i] == spec_header_bytes(decoded)[6 + i]);
        assert(h.vendor_id.vendor_id[i] == spec_header_bytes(h)[6 + i]);
    }
    assert(decoded.vendor_id.vendor_id =~= h.vendor_id.vendor_id);
    assert forall|i: int| 0 <= i < 12 implies decoded.guid_prefix.bytes[i]
        == h.guid_prefix.bytes[i] by {
        assert(decoded.guid_prefix.bytes[i] == spec_header_bytes(decoded)[8 + i]);
        assert(h.guid_prefix.bytes[i] == spec_header_bytes(h)[8 + i]);
    }
    assert(decoded.guid_prefix.bytes =~= h.guid_prefix.bytes);
}

/// A header transcribed from another with only its major version replaced.
pub open spec fn spec_with_major(h: Header, major: u8) -> Header {
    Header {
        protocol_id: h.protocol_id,
        protocol_version: ProtocolVersion_t { major, minor: h.protocol_version.minor },
        vendor_id: h.vendor_id,
        guid_prefix: h.guid_prefix,
    }
}

/// At the supported-major boundary, raising the major version of a valid
/// header by one invalidates it, and restoring the original major makes it
/// valid again. (Below the boundary one raise keeps the header valid, so the
/// law is stated at the boundary only.)
pub proof fn lemma_valid_major_boundary(h: Header)
    requires
        spec_valid(h),
        h.protocol_version.major == SUPPORTED_MAJOR,
    ensures
        !spec_valid(spec_with_major(h, (h.protocol_version.major + 1) as u8)),
        spec_valid(
            spec_with_major(
                spec_with_major(h, (h.protocol_version.major + 1) as u8),
                h.protocol_version.major,
            ),
        ),
{
}

} // verus!
