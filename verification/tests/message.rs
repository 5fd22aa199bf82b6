use edifier::error::EdifierError;
use edifier::message::{compute_crc, split_into_bytes, EdifierMessage};

#[test]
fn test_new() {
    assert_eq!(
        EdifierMessage::new(0xC9, None).as_slice(),
        vec![0xAA, 0x01, 0xC9, 0x21, 0x8D].as_slice()
    );
    assert_eq!(
        EdifierMessage::new(0xCE, None).as_slice(),
        vec![0xAA, 0x01, 0xCE, 0x21, 0x92].as_slice()
    );
    assert_eq!(
        EdifierMessage::new(0xC8, None).as_slice(),
        vec![0xAA, 0x01, 0xC8, 0x21, 0x8C].as_slice()
    );
}

#[test]
fn test_from() {
    let msg = EdifierMessage::from(vec![0xAA, 0x01, 0xC9, 0x21, 0x8D]);
    assert_eq!(msg, EdifierMessage::from(vec![0xAA, 0x01, 0xC9, 0x21, 0x8D]));
    assert_eq!(msg.as_slice(), vec![0xAA, 0x01, 0xC9, 0x21, 0x8D].as_slice());
}

#[test]
fn test_decode_raw_getter_reply() {
    let msg = EdifierMessage::decode(vec![0xAA, 0x01, 0xC9, 0x21, 0x8D]).unwrap();
    assert_eq!(msg.command_code(), 0xC9);
    assert_eq!(msg.payload(), None);
}

#[test]
fn test_decode_too_short() {
    assert_eq!(
        EdifierMessage::decode(vec![0xAA, 0x01, 0xC9, 0x21]),
        Err(EdifierError::MalformedFrame)
    );
    assert_eq!(EdifierMessage::decode(vec![]), Err(EdifierError::MalformedFrame));
}

#[test]
fn test_decode_length_mismatch() {
    // length field says one payload byte, but none is present
    assert_eq!(
        EdifierMessage::decode(vec![0xAA, 0x02, 0xC9, 0x21, 0x8D]),
        Err(EdifierError::MalformedFrame)
    );
}

#[test]
fn test_encode_round_trip_with_payload() {
    let payload = [0x10u8, 0x20, 0x30];
    let encoded = EdifierMessage::new(0xCA, Some(&payload));
    let decoded = EdifierMessage::decode(encoded.as_slice().to_vec()).unwrap();
    assert_eq!(decoded.command_code(), 0xCA);
    assert_eq!(decoded.payload(), Some(vec![0x10, 0x20, 0x30]));
}

#[test]
fn test_encode_round_trip_largest_payload() {
    let payload = vec![0xFFu8; 254];
    let encoded = EdifierMessage::new(0xCA, Some(payload.as_slice()));
    assert_eq!(encoded.as_slice().len(), 259);
    let decoded = EdifierMessage::decode(encoded.as_slice().to_vec()).unwrap();
    assert_eq!(decoded.command_code(), 0xCA);
    assert_eq!(decoded.payload(), Some(payload));
}

#[test]
fn test_encode_round_trip_empty_payload() {
    let payload: [u8; 0] = [];
    let encoded = EdifierMessage::new(0xD0, Some(&payload));
    let decoded = EdifierMessage::decode(encoded.as_slice().to_vec()).unwrap();
    assert_eq!(decoded.command_code(), 0xD0);
    assert_eq!(decoded.payload(), None);
}

#[test]
fn test_verify_checksum_accepts_encoded_frame() {
    let msg = EdifierMessage::new(0xC9, None);
    assert!(msg.verify_checksum());
    let payload = [0x01u8, 0x02];
    let with_payload = EdifierMessage::new(0xC1, Some(&payload));
    assert!(with_payload.verify_checksum());
}

#[test]
fn test_verify_checksum_rejects_corrupted_frame() {
    let msg = EdifierMessage::from(vec![0xAA, 0x01, 0xC9, 0x21, 0x8E]);
    assert!(!msg.verify_checksum());
}

#[test]
fn test_compute_crc_values() {
    assert_eq!(compute_crc(&[]), 0x2019);
    assert_eq!(compute_crc(&[0xAA, 0x01, 0xC9]), 0x218D);
    // the sum of the bytes wraps past sixteen bits
    let heavy = vec![0xFFu8; 300];
    let expected = ((0x2019u32 + 300 * 0xFF) % 0x10000) as u16;
    assert_eq!(compute_crc(heavy.as_slice()), expected);
}

#[test]
fn test_split_into_bytes_is_big_endian() {
    assert_eq!(split_into_bytes(0x218D), [0x21, 0x8D]);
    assert_eq!(split_into_bytes(0x00FF), [0x00, 0xFF]);
    assert_eq!(split_into_bytes(0xFF00), [0xFF, 0x00]);
}
