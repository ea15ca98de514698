use liquid_swaps::error::Error;
use liquid_swaps::hex_text::{hex_to_bytes32, hex_to_bytes66};
use liquid_swaps::script::bytes_to_u32_little_endian;
use liquid_swaps::util;

#[test]
fn reads_thirty_two_bytes() {
    let text = "00".repeat(31) + "aB";
    let mut expected = [0u8; 32];
    expected[31] = 0xab;
    assert_eq!(hex_to_bytes32(&text), Ok(expected));
    assert_eq!(util::hex_to_bytes32(&text), Ok(expected));
}

#[test]
fn reads_sixty_six_bytes() {
    let text = "01".repeat(65) + "fF";
    let mut expected = [1u8; 66];
    expected[65] = 0xff;
    assert_eq!(hex_to_bytes66(&text), Ok(expected));
}

#[test]
fn names_both_lengths() {
    let short = Err(Error::Protocol("Expected 32 bytes, got 31".to_string()));
    assert_eq!(hex_to_bytes32(&"ab".repeat(31)), short);
    assert_eq!(util::hex_to_bytes32(&"ab".repeat(31)), short);
    let empty = Error::Protocol("Expected 66 bytes, got 0".to_string());
    assert_eq!(hex_to_bytes66(""), Err(empty));
    let long = Error::Protocol("Expected 66 bytes, got 100".to_string());
    assert_eq!(hex_to_bytes66(&"ab".repeat(100)), Err(long));
}

#[test]
fn refuses_what_is_not_hexadecimal() {
    for text in ["0", "zz", "0x00", " 00", "\u{e9}0"] {
        assert!(matches!(hex_to_bytes32(text), Err(Error::Hex(_))), "{}", text);
        assert!(matches!(hex_to_bytes66(text), Err(Error::Hex(_))), "{}", text);
        assert!(matches!(util::hex_to_bytes32(text), Err(Error::Hex(_))), "{}", text);
    }
}

#[test]
fn reads_little_endian_numbers() {
    assert_eq!(bytes_to_u32_little_endian(&[]), 0);
    assert_eq!(bytes_to_u32_little_endian(&[0x11]), 0x11);
    assert_eq!(bytes_to_u32_little_endian(&[0x87, 0xd6, 0x12]), 1_234_567);
    assert_eq!(bytes_to_u32_little_endian(&[0xff; 4]), u32::MAX);
}
