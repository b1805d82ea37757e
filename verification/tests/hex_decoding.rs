use disasm::hexparse::{decode_hex, HexError};

#[test]
fn decodes_plain_even_hex() {
    assert_eq!(decode_hex("b801000000"), Ok(vec![0xB8, 0x01, 0x00, 0x00, 0x00]));
}

#[test]
fn decodes_uppercase_and_mixed_case() {
    assert_eq!(decode_hex("DEadBEef"), Ok(vec![0xDE, 0xAD, 0xBE, 0xEF]));
}

#[test]
fn strips_interspersed_whitespace() {
    assert_eq!(decode_hex("B8 01 00 00 00"), Ok(vec![0xB8, 0x01, 0x00, 0x00, 0x00]));
    assert_eq!(decode_hex(" \t0f\n05 \r"), Ok(vec![0x0F, 0x05]));
    assert_eq!(decode_hex("0 1"), Ok(vec![0x01]));
}

#[test]
fn strips_unicode_whitespace() {
    assert_eq!(decode_hex("b8\u{00A0}01"), Ok(vec![0xB8, 0x01]));
    assert_eq!(decode_hex("0f\u{2003}\u{3000}05"), Ok(vec![0x0F, 0x05]));
}

#[test]
fn empty_input_gives_no_bytes() {
    assert_eq!(decode_hex(""), Ok(vec![]));
    assert_eq!(decode_hex("   "), Ok(vec![]));
}

#[test]
fn odd_digit_count_is_rejected() {
    assert_eq!(decode_hex("abc"), Err(HexError::OddLength));
    assert_eq!(decode_hex("a b c"), Err(HexError::OddLength));
    assert_eq!(decode_hex("0"), Err(HexError::OddLength));
}

#[test]
fn non_hex_character_is_rejected() {
    assert_eq!(decode_hex("0g"), Err(HexError::InvalidDigit));
    assert_eq!(decode_hex("zz"), Err(HexError::InvalidDigit));
    assert_eq!(decode_hex("12 3x"), Err(HexError::InvalidDigit));
}

#[test]
fn odd_length_reported_before_bad_digit() {
    assert_eq!(decode_hex("0g1"), Err(HexError::OddLength));
}

#[test]
fn matches_reference_hex_decoder() {
    for input in ["", "00", "ff", "b801000000", "0123456789abcdefABCDEF00"] {
        assert_eq!(decode_hex(input), Ok(hex::decode(input).unwrap()));
    }
    assert!(hex::decode("abc").is_err());
    assert!(decode_hex("abc").is_err());
    assert!(hex::decode("0g").is_err());
    assert!(decode_hex("0g").is_err());
}
