use rtps_wire::common::codec::DecodeError;
use rtps_wire::common::codec::Endianness;
use rtps_wire::structure::instance_handle::InstanceHandle_t;

#[test]
fn instance_handle_default() {
    let handle = InstanceHandle_t::default();
    let expected: Vec<u8> = vec![0x00; 16];
    assert_eq!(handle.encode(Endianness::LittleEndian), expected);
    assert_eq!(handle.encode(Endianness::BigEndian), expected);
}

#[test]
fn instance_handle_endianness_insensitive() {
    let pattern: [u8; 16] = [
        0x00, 0x11, 0x22, 0x33, 0x44, 0x55, 0x66, 0x77, 0x88, 0x99, 0xAA, 0xBB, 0xCC, 0xDD, 0xEE,
        0xFF,
    ];
    let handle = InstanceHandle_t {
        entity_key: pattern,
    };

    let le = handle.encode(Endianness::LittleEndian);
    let be = handle.encode(Endianness::BigEndian);
    assert_eq!(le, pattern.to_vec());
    assert_eq!(be, pattern.to_vec());

    let back_le = InstanceHandle_t::decode(&le, Endianness::LittleEndian).unwrap();
    assert_eq!(back_le, handle);
    let back_be = InstanceHandle_t::decode(&be, Endianness::BigEndian).unwrap();
    assert_eq!(back_be, handle);
}

#[test]
fn instance_handle_decode_truncated() {
    let bytes = [0u8; 15];
    assert_eq!(
        InstanceHandle_t::decode(&bytes, Endianness::LittleEndian),
        Err(DecodeError::TruncatedInput)
    );
}

#[test]
fn instance_handle_ordering() {
    let a = InstanceHandle_t {
        entity_key: [0, 0, 0, 0, 0, 0, 0, 0, 0, 0, 0, 0, 0, 0, 0, 1],
    };
    let b = InstanceHandle_t {
        entity_key: [0, 0, 0, 0, 0, 0, 0, 0, 0, 0, 0, 0, 0, 0, 0, 2],
    };
    let c = InstanceHandle_t {
        entity_key: [1, 0, 0, 0, 0, 0, 0, 0, 0, 0, 0, 0, 0, 0, 0, 0],
    };

    assert!(a < b);
    assert!(b > a);
    assert!(b < c);
    assert!(a < c);
    assert_eq!(a.partial_cmp(&a), Some(std::cmp::Ordering::Equal));
    assert_eq!(a.partial_cmp(&b), Some(std::cmp::Ordering::Less));
    assert_eq!(c.partial_cmp(&a), Some(std::cmp::Ordering::Greater));
}
