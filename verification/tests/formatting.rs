use disasm::listing::InsnRecord;
use disasm::render::{format_address, format_bytes, render_instruction, render_invalid_byte};

#[test]
fn byte_column_of_one_byte() {
    let expected = format!("B8{}", "   ".repeat(15));
    assert_eq!(format_bytes(&[0xB8]), expected);
}

#[test]
fn byte_column_is_always_sixteen_slots() {
    let bytes: Vec<u8> = (0..16).collect();
    for n in 1..=16 {
        let col = format_bytes(&bytes[..n]);
        assert_eq!(col.len(), 47);
        for (i, slotpos) in (0..16).map(|i| (i, 3 * i)).collect::<Vec<_>>() {
            let slot = &col[slotpos..slotpos + 2];
            if i < n {
                assert_eq!(slot, format!("{:02X}", bytes[i]));
            } else {
                assert_eq!(slot, "  ");
            }
            if i > 0 {
                assert_eq!(&col[slotpos - 1..slotpos], " ");
            }
        }
    }
}

#[test]
fn byte_column_of_full_sixteen_bytes() {
    let bytes: Vec<u8> = vec![0x00, 0x11, 0x22, 0x33, 0x44, 0x55, 0x66, 0x77, 0x88, 0x99, 0xAA,
        0xBB, 0xCC, 0xDD, 0xEE, 0xFF];
    assert_eq!(
        format_bytes(&bytes),
        "00 11 22 33 44 55 66 77 88 99 AA BB CC DD EE FF"
    );
}

#[test]
fn byte_column_grows_past_sixteen_bytes() {
    let bytes: Vec<u8> = vec![0xAB; 17];
    let col = format_bytes(&bytes);
    assert_eq!(col.len(), 50);
    assert!(col.ends_with("AB AB"));
}

#[test]
fn addresses_are_zero_padded_uppercase_hex() {
    assert_eq!(format_address(0), "0000");
    assert_eq!(format_address(1), "0001");
    assert_eq!(format_address(0x1B), "001B");
    assert_eq!(format_address(0x1B3), "01B3");
    assert_eq!(format_address(0xFFFF), "FFFF");
    assert_eq!(format_address(0x12345), "12345");
}

#[test]
fn instruction_line_pads_mnemonic_to_eight() {
    let rec = InsnRecord {
        address: 0,
        bytes: vec![0xB8, 0x01, 0x00, 0x00, 0x00],
        mnemonic: Some("mov".to_string()),
        op_str: Some("eax, 1".to_string()),
    };
    let expected = format!("0000: B8 01 00 00 00{} mov      eax, 1", "   ".repeat(11));
    assert_eq!(render_instruction(&rec), expected);
}

#[test]
fn instruction_line_without_operands_shows_mnemonic_alone() {
    let rec = InsnRecord {
        address: 3,
        bytes: vec![0x90],
        mnemonic: Some("nop".to_string()),
        op_str: None,
    };
    let expected = format!("0003: 90{} nop", "   ".repeat(15));
    assert_eq!(render_instruction(&rec), expected);
}

#[test]
fn long_mnemonic_is_not_truncated() {
    let rec = InsnRecord {
        address: 0x10,
        bytes: vec![0x0F, 0xAE, 0xE8],
        mnemonic: Some("verylongmnemonic".to_string()),
        op_str: Some("x".to_string()),
    };
    let line = render_instruction(&rec);
    assert!(line.contains("verylongmnemonic x"));
}

#[test]
fn invalid_byte_line_uses_question_marks() {
    let expected = format!("0000: 06{} ??", "   ".repeat(15));
    assert_eq!(render_invalid_byte(0, 0x06), expected);
    let expected2 = format!("00FF: FF{} ??", "   ".repeat(15));
    assert_eq!(render_invalid_byte(0xFF, 0xFF), expected2);
}
