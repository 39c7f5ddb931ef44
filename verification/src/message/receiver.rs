use vstd::prelude::*;

use crate::common::guid_prefix::GuidPrefix_t;
use crate::common::guid_prefix::guidprefix_unknown;
use crate::common::guid_prefix::guidprefix_unknown_bytes;
use crate::common::locator::LOCATOR_PORT_INVALID;
use crate::common::locator::Locator_t;
use crate::common::protocol_version::ProtocolVersion_t;
use crate::common::protocol_version::protocolversion;
use crate::common::protocol_version::supported_version;
use crate::common::time::Time_t;
use crate::common::time::time_invalid;
use crate::common::time::time_invalid_value;
use crate::common::vendor_id::VendorId_t;
use crate::common::vendor_id::vendor_unknown;
use crate::common::vendor_id::vendor_unknown_bytes;

verus! {

/// Mutable per-datagram context: seeded from the transport when a datagram
/// arrives, then mutated in place as the submessage dispatcher walks the
/// submessage list. Each inbound datagram gets its own instance; it is owned
/// exclusively by the one task processing that datagram, because later
/// submessages must see the mutations made by earlier ones.
#[derive(Clone, Copy, Debug, PartialEq)]
pub struct Receiver {
    pub source_version: ProtocolVersion_t,
    pub source_vendor_id: VendorId_t,
    pub source_guid_prefix: GuidPrefix_t,
    pub dest_guid_prefix: GuidPrefix_t,
    pub unicast_reply_locator: Locator_t,
    pub multicast_reply_locator: Locator_t,
    pub have_timestamp: bool,
    pub timestamp: Time_t,
}

impl Receiver {
    /// Seeds the context for one inbound datagram: source fields start at
    /// their fully-unknown sentinels, the destination prefix is copied
    /// verbatim, and the two reply locators keep their kind and address but
    /// have their port forced to `LOCATOR_PORT_INVALID` whatever port was
    /// passed in, pending explicit submessage data. (Whether forcing the port
    /// here conforms to the referenced protocol text is a known ambiguity;
    /// this layer deliberately keeps the behaviour.)
    pub fn new(
        destination_guid_prefix: GuidPrefix_t,
        unicast_reply_locator: Locator_t,
        multicast_reply_locator: Locator_t,
    ) -> (r: Receiver)
        ensures
            r.source_version == supported_version(),
            r.source_vendor_id.vendor_id@ == vendor_unknown_bytes(),
            r.source_guid_prefix.bytes@ == guidprefix_unknown_bytes(),
            r.dest_guid_prefix == destination_guid_prefix,
            r.unicast_reply_locator.kind == unicast_reply_locator.kind,
            r.unicast_reply_locator.port == LOCATOR_PORT_INVALID,
            r.unicast_reply_locator.address == unicast_reply_locator.address,
            r.multicast_reply_locator.kind == multicast_reply_locator.kind,
            r.multicast_reply_locator.port == LOCATOR_PORT_INVALID,
            r.multicast_reply_locator.address == multicast_reply_locator.address,
            r.have_timestamp == false,
            r.timestamp == time_invalid_value(),
    {
        Receiver {
            source_version: protocolversion(),
            source_vendor_id: vendor_unknown(),
            source_guid_prefix: guidprefix_unknown(),
            dest_guid_prefix: destination_guid_prefix,
            unicast_reply_locator: Locator_t {
                kind: unicast_reply_locator.kind,
                port: LOCATOR_PORT_INVALID,
                address: unicast_reply_locator.address,
            },
            multicast_reply_locator: Locator_t {
                kind: multicast_reply_locator.kind,
                port: LOCATOR_PORT_INVALID,
                address: multicast_reply_locator.address,
            },
            have_timestamp: false,
            timestamp: time_invalid(),
        }
    }

    /// Records the sender's identity once an inbound submessage announces it.
    /// Every submessage processed after this call sees the new source fields;
    /// everything else in the context is untouched.
    pub fn establish_source(
        &mut self,
        version: ProtocolVersion_t,
        vendor_id: VendorId_t,
        guid_prefix: GuidPrefix_t,
    )
        ensures
            final(self).source_version == version,
            final(self).source_vendor_id == vendor_id,
            final(self).source_guid_prefix == guid_prefix,
            final(self).dest_guid_prefix == old(self).dest_guid_prefix,
            final(self).unicast_reply_locator == old(self).unicast_reply_locator,
            final(self).multicast_reply_locator == old(self).multicast_reply_locator,
            final(self).have_timestamp == old(self).have_timestamp,
            final(self).timestamp == old(self).timestamp,
    {
        self.source_version = version;
        self.source_vendor_id = vendor_id;
        self.source_guid_prefix = guid_prefix;
    }

    /// Attaches a timestamp announced by an inbound submessage to the
    /// submessages that follow it; everything else in the context is
    /// untouched.
    pub fn establish_timestamp(&mut self, timestamp: Time_t)
        ensures
            final(self).have_timestamp == true,
            final(self).timestamp == timestamp,
            final(self).source_version == old(self).source_version,
            final(self).source_vendor_id == old(self).source_vendor_id,
            final(self).source_guid_prefix == old(self).source_guid_prefix,
            final(self).dest_guid_prefix == old(self).dest_guid_prefix,
            final(self).unicast_reply_locator == old(self).unicast_reply_locator,
            final(self).multicast_reply_locator == old(self).multicast_reply_locator,
    {
        self.have_timestamp = true;
        self.timestamp = timestamp;
    }
}

} // verus!
