use disasm::config::{
    engine_config, ArchFamily, Architecture, EngineConfig, ModeSelect, SyntaxSelect,
};
use disasm::engine::get_capstone;
use disasm::hexparse::decode_hex;
use disasm::listing::{disassemble, Unit};
use disasm::render::render_unit;

const ALL_ARCHITECTURES: [Architecture; 19] = [
    Architecture::Arm,
    Architecture::ArmThumb,
    Architecture::Arm64,
    Architecture::Evm,
    Architecture::M680x6811,
    Architecture::M68k040,
    Architecture::Mips32,
    Architecture::Mips64,
    Architecture::Ppc32,
    Architecture::Ppc64,
    Architecture::Riscv32,
    Architecture::Riscv64,
    Architecture::Sparc,
    Architecture::Sysz,
    Architecture::Tms320c64x,
    Architecture::X86_16,
    Architecture::X86_32,
    Architecture::X86_64,
    Architecture::Xcore,
];

#[test]
fn engine_config_is_total_and_distinct() {
    let configs: Vec<EngineConfig> = ALL_ARCHITECTURES.iter().map(|a| engine_config(*a)).collect();
    for (i, c1) in configs.iter().enumerate() {
        assert!(c1.detail);
        for (j, c2) in configs.iter().enumerate() {
            if i != j {
                assert_ne!(c1, c2);
            }
        }
    }
}

#[test]
fn engine_config_maps_x86_64_to_intel_64_bit() {
    let c = engine_config(Architecture::X86_64);
    assert_eq!(c, EngineConfig {
        family: ArchFamily::X86,
        mode: ModeSelect::Mode64,
        syntax: Some(SyntaxSelect::Intel),
        detail: true,
    });
}

#[test]
fn engine_config_separates_mips_modes() {
    let c32 = engine_config(Architecture::Mips32);
    let c64 = engine_config(Architecture::Mips64);
    assert_eq!(c32.family, ArchFamily::Mips);
    assert_eq!(c64.family, ArchFamily::Mips);
    assert_eq!(c32.mode, ModeSelect::Mips32);
    assert_eq!(c64.mode, ModeSelect::Mips64);
}

#[test]
fn every_architecture_builds_an_engine() {
    for arch in ALL_ARCHITECTURES {
        assert!(get_capstone(arch).is_ok(), "engine build failed for {:?}", arch);
    }
}

#[test]
fn end_to_end_mov_eax_1() {
    let cs = get_capstone(Architecture::X86_64).unwrap();
    let bytes = decode_hex("B8 01 00 00 00").unwrap();
    let units = disassemble(&cs, &bytes);
    assert_eq!(units.len(), 1);
    match &units[0] {
        Unit::Instruction(rec) => {
            assert_eq!(rec.address, 0);
            assert_eq!(rec.bytes, vec![0xB8, 0x01, 0x00, 0x00, 0x00]);
            assert_eq!(rec.mnemonic.as_deref(), Some("mov"));
            assert_eq!(rec.op_str.as_deref(), Some("eax, 1"));
        },
        other => panic!("expected an instruction, got {:?}", other),
    }
    let line = render_unit(&units[0]);
    let expected = format!("0000: B8 01 00 00 00{} mov      eax, 1", "   ".repeat(11));
    assert_eq!(line, expected);
}

#[test]
fn invalid_byte_then_instruction_resynchronizes() {
    let cs = get_capstone(Architecture::X86_64).unwrap();
    // 0x06 is not a valid 64-bit x86 opcode; the instruction after it is
    // mov eax, 1.
    let bytes = decode_hex("06 B8 01 00 00 00").unwrap();
    let units = disassemble(&cs, &bytes);
    assert_eq!(units.len(), 2);
    match &units[0] {
        Unit::InvalidByte { address, byte } => {
            assert_eq!(*address, 0);
            assert_eq!(*byte, 0x06);
        },
        other => panic!("expected an invalid byte, got {:?}", other),
    }
    match &units[1] {
        Unit::Instruction(rec) => {
            assert_eq!(rec.address, 1);
            assert_eq!(rec.mnemonic.as_deref(), Some("mov"));
        },
        other => panic!("expected an instruction, got {:?}", other),
    }
    let first = render_unit(&units[0]);
    assert_eq!(first, format!("0000: 06{} ??", "   ".repeat(15)));
    let second = render_unit(&units[1]);
    assert!(second.starts_with("0001: B8 01 00 00 00"));
}

#[test]
fn units_cover_every_byte_exactly_once() {
    let cs = get_capstone(Architecture::X86_64).unwrap();
    // A mix of valid instructions and junk bytes.
    let bytes = decode_hex("06 B8 01 00 00 00 C3 06 06 90").unwrap();
    let units = disassemble(&cs, &bytes);
    let mut pos: usize = 0;
    for u in &units {
        match u {
            Unit::Instruction(rec) => {
                assert_eq!(rec.address, pos as u64);
                assert!(!rec.bytes.is_empty());
                assert_eq!(rec.bytes[..], bytes[pos..pos + rec.bytes.len()]);
                pos += rec.bytes.len();
            },
            Unit::InvalidByte { address, byte } => {
                assert_eq!(*address, pos as u64);
                assert_eq!(*byte, bytes[pos]);
                pos += 1;
            },
        }
    }
    assert_eq!(pos, bytes.len());
}

#[test]
fn empty_buffer_gives_empty_listing() {
    let cs = get_capstone(Architecture::X86_64).unwrap();
    let units = disassemble(&cs, &Vec::new());
    assert!(units.is_empty());
}

#[test]
fn all_invalid_bytes_are_marked_one_by_one() {
    let cs = get_capstone(Architecture::X86_64).unwrap();
    let bytes = vec![0x06, 0x06, 0x06];
    let units = disassemble(&cs, &bytes);
    assert_eq!(units.len(), 3);
    for (i, u) in units.iter().enumerate() {
        match u {
            Unit::InvalidByte { address, byte } => {
                assert_eq!(*address, i as u64);
                assert_eq!(*byte, 0x06);
            },
            other => panic!("expected an invalid byte, got {:?}", other),
        }
    }
}

#[test]
fn arm_branch_decodes() {
    let cs = get_capstone(Architecture::Arm).unwrap();
    // "andeq r0, r0, r0" encoding, 4 bytes little-endian.
    let bytes = decode_hex("00 00 00 00").unwrap();
    let units = disassemble(&cs, &bytes);
    let mut total = 0usize;
    for u in &units {
        match u {
            Unit::Instruction(rec) => total += rec.bytes.len(),
            Unit::InvalidByte { .. } => total += 1,
        }
    }
    assert_eq!(total, 4);
}
