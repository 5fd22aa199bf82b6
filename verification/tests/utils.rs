use edifier::utils::{join_hex, join_str};

#[test]
fn test_join_hex_mac_address() {
    assert_eq!(join_hex(&vec![0x00, 0x1B, 0x66, 0xAF, 0x0C, 0x9E], ":"), "00:1B:66:AF:0C:9E");
}

#[test]
fn test_join_hex_single_and_empty() {
    assert_eq!(join_hex(&vec![0x5A], ":"), "5A");
    assert_eq!(join_hex(&vec![], ":"), "");
}

#[test]
fn test_join_hex_fingerprint_spacing() {
    assert_eq!(join_hex(&vec![0xDE, 0xAD, 0x01], " "), "DE AD 01");
}

#[test]
fn test_join_str_firmware_version() {
    assert_eq!(join_str(&vec![1, 2, 3], "."), "1.2.3");
    assert_eq!(join_str(&vec![0, 10, 255], "."), "0.10.255");
}

#[test]
fn test_join_str_decimal_widths() {
    assert_eq!(join_str(&vec![7], ", "), "7");
    assert_eq!(join_str(&vec![42, 100, 9], ", "), "42, 100, 9");
    assert_eq!(join_str(&vec![], "."), "");
}
