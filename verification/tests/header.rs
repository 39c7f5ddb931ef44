use rtps_wire::common::codec::DecodeError;
use rtps_wire::common::codec::Endianness;
use rtps_wire::common::guid_prefix::GuidPrefix_t;
use rtps_wire::common::guid_prefix::guidprefix_unknown;
use rtps_wire::common::protocol_id::ProtocolId_t;
use rtps_wire::common::protocol_id::protocol_rtps;
use rtps_wire::common::protocol_version::protocolversion;
use rtps_wire::common::protocol_version::protocolversion_1_0;
use rtps_wire::message::header::Header;

#[test]
fn header_protocol_version_major() {
    let mut header = Header::new(guidprefix_unknown());

    header.protocol_version = protocolversion_1_0();
    assert!(header.valid());

    header.protocol_version = protocolversion();
    assert!(header.valid());

    header.protocol_version.major += 1;
    assert!(!header.valid());
}

#[test]
fn header_protocol_id_same_as_rtps() {
    let mut header = Header::new(guidprefix_unknown());

    header.protocol_id = protocol_rtps();
    assert!(header.valid());
}

#[test]
fn header_with_unknown_guid_prefix() {
    let header = Header::new(guidprefix_unknown());
    let expected: Vec<u8> = vec![
        0x52, 0x54, 0x50, 0x53, // protocol_id
        0x02, 0x02, // protocol_version
        0x00, 0x00, // vendor_id
        0x00, 0x00, 0x00, 0x00, // guid_prefix
        0x00, 0x00, 0x00, 0x00, 0x00, 0x00, 0x00, 0x00,
    ];
    assert_eq!(header.encode(Endianness::LittleEndian), expected);
    assert_eq!(header.encode(Endianness::BigEndian), expected);
}

#[test]
fn header_round_trip_either_order() {
    let header = Header::new(GuidPrefix_t {
        bytes: [1, 2, 3, 4, 5, 6, 7, 8, 9, 10, 11, 12],
    });

    let bytes_le = header.encode(Endianness::LittleEndian);
    let decoded_le = Header::decode(&bytes_le, Endianness::LittleEndian).unwrap();
    assert_eq!(decoded_le, header);

    let bytes_be = header.encode(Endianness::BigEndian);
    let decoded_be = Header::decode(&bytes_be, Endianness::BigEndian).unwrap();
    assert_eq!(decoded_be, header);

    assert_eq!(bytes_le, bytes_be);
}

#[test]
fn header_decode_truncated() {
    let bytes = [0x52u8; 19];
    assert_eq!(
        Header::decode(&bytes, Endianness::LittleEndian),
        Err(DecodeError::TruncatedInput)
    );
    assert_eq!(
        Header::decode(&[], Endianness::BigEndian),
        Err(DecodeError::TruncatedInput)
    );
}

#[test]
fn header_valid_formula() {
    let mut header = Header::new(guidprefix_unknown());
    header.protocol_id = ProtocolId_t {
        protocol_id: [0x52, 0x54, 0x50, 0x54],
    };
    assert!(!header.valid());

    let mut header = Header::new(guidprefix_unknown());
    header.protocol_version.major = 3;
    assert!(!header.valid());

    let mut header = Header::new(guidprefix_unknown());
    header.protocol_version.major = 1;
    header.protocol_version.minor = 5;
    assert!(header.valid());
}
