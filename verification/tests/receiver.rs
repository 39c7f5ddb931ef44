use rtps_wire::common::guid_prefix::GuidPrefix_t;
use rtps_wire::common::locator::LOCATOR_PORT_INVALID;
use rtps_wire::common::locator::Locator_t;
use rtps_wire::common::protocol_version::ProtocolVersion_t;
use rtps_wire::common::protocol_version::protocolversion;
use rtps_wire::common::time::Time_t;
use rtps_wire::common::time::time_invalid;
use rtps_wire::common::vendor_id::VendorId_t;
use rtps_wire::common::vendor_id::vendor_unknown;
use rtps_wire::message::receiver::Receiver;

#[test]
fn receiver_new_seeds_sentinels_and_forces_ports_invalid() {
    let dest = GuidPrefix_t { bytes: [7u8; 12] };
    let uni = Locator_t {
        kind: 1,
        port: 7410,
        address: [1u8; 16],
    };
    let multi = Locator_t {
        kind: 2,
        port: 7400,
        address: [2u8; 16],
    };

    let r = Receiver::new(dest, uni, multi);

    assert!(!r.have_timestamp);
    assert_eq!(r.timestamp, time_invalid());
    assert_eq!(r.source_version, protocolversion());
    assert_eq!(r.source_vendor_id, vendor_unknown());
    assert_eq!(r.source_guid_prefix, GuidPrefix_t { bytes: [0u8; 12] });
    assert_eq!(r.dest_guid_prefix, dest);

    assert_eq!(r.unicast_reply_locator.port, LOCATOR_PORT_INVALID);
    assert_eq!(r.unicast_reply_locator.kind, 1);
    assert_eq!(r.unicast_reply_locator.address, [1u8; 16]);
    assert_eq!(r.multicast_reply_locator.port, LOCATOR_PORT_INVALID);
    assert_eq!(r.multicast_reply_locator.kind, 2);
    assert_eq!(r.multicast_reply_locator.address, [2u8; 16]);
}

#[test]
fn receiver_establish_source_and_timestamp() {
    let dest = GuidPrefix_t { bytes: [7u8; 12] };
    let uni = Locator_t {
        kind: 1,
        port: 7410,
        address: [1u8; 16],
    };
    let multi = Locator_t {
        kind: 2,
        port: 7400,
        address: [2u8; 16],
    };
    let mut r = Receiver::new(dest, uni, multi);

    let peer_version = ProtocolVersion_t { major: 2, minor: 1 };
    let peer_vendor = VendorId_t {
        vendor_id: [0x01, 0x0F],
    };
    let peer_prefix = GuidPrefix_t { bytes: [9u8; 12] };
    r.establish_source(peer_version, peer_vendor, peer_prefix);
    assert_eq!(r.source_version, peer_version);
    assert_eq!(r.source_vendor_id, peer_vendor);
    assert_eq!(r.source_guid_prefix, peer_prefix);
    assert_eq!(r.dest_guid_prefix, dest);
    assert!(!r.have_timestamp);

    let stamp = Time_t {
        seconds: 5,
        fraction: 10,
    };
    r.establish_timestamp(stamp);
    assert!(r.have_timestamp);
    assert_eq!(r.timestamp, stamp);
    assert_eq!(r.source_guid_prefix, peer_prefix);
    assert_eq!(r.unicast_reply_locator.port, LOCATOR_PORT_INVALID);
}
