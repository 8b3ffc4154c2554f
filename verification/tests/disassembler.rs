use chip_8_lib::disassembler::{disassemble, render};
use chip_8_lib::opcode::{decode, Instruction};

#[test]
fn jump_shows_its_address_in_hexadecimal() {
    assert_eq!(disassemble(0x1234), "JP 0x234");
}

#[test]
fn clear_screen() {
    assert_eq!(disassemble(0x00E0), "CLS");
}

#[test]
fn return_from_subroutine() {
    assert_eq!(disassemble(0x00EE), "RET");
}

#[test]
fn legacy_machine_call_shows_nothing() {
    assert_eq!(disassemble(0x0123), "");
    assert_eq!(disassemble(0x0000), "");
    assert_eq!(disassemble(0x0FFF), "");
}

#[test]
fn only_the_exact_words_clear_and_return() {
    assert_eq!(disassemble(0x01E0), "");
    assert_eq!(disassemble(0x0FE0), "");
    assert_eq!(disassemble(0x01EE), "");
    assert_eq!(disassemble(0x0FEE), "");
    assert_eq!(decode(0x01E0), Some(Instruction::Sys { nnn: 0x1E0 }));
    assert_eq!(decode(0x0FEE), Some(Instruction::Sys { nnn: 0xFEE }));
    assert_eq!(decode(0x00E0), Some(Instruction::Cls));
    assert_eq!(decode(0x00EE), Some(Instruction::Ret));
}

#[test]
fn text_is_empty_exactly_for_legacy_machine_calls() {
    let mut opcode: u32 = 0;
    while opcode <= 0xFFFF {
        let word = opcode as u16;
        let legacy = word <= 0x0FFF && word != 0x00E0 && word != 0x00EE;
        assert_eq!(disassemble(word).is_empty(), legacy);
        opcode += 1;
    }
}

#[test]
fn unused_arithmetic_subcode_gives_placeholder() {
    assert_eq!(disassemble(0x8008), "??? 8008");
    assert_eq!(disassemble(0x8ABF), "??? 8ABF");
    assert!(disassemble(0x8129).contains("8129"));
}

#[test]
fn unused_key_and_misc_codes_give_placeholder() {
    assert_eq!(disassemble(0xE000), "??? E000");
    assert_eq!(disassemble(0xE19F), "??? E19F");
    assert_eq!(disassemble(0xF0FF), "??? F0FF");
    assert_eq!(disassemble(0xFFFF), "??? FFFF");
}

#[test]
fn call_and_jump_addresses() {
    assert_eq!(disassemble(0x2ABC), "CALL 0xABC");
    assert_eq!(disassemble(0x1000), "JP 0x0");
    assert_eq!(disassemble(0x1FFF), "JP 0xFFF");
    assert_eq!(disassemble(0x2010), "CALL 0x10");
}

#[test]
fn register_and_byte_operands_are_decimal() {
    assert_eq!(disassemble(0x3A2B), "SE V10 43");
    assert_eq!(disassemble(0x4105), "SNE V1 5");
    assert_eq!(disassemble(0x60FF), "LD V0 255");
    assert_eq!(disassemble(0x6F00), "LD V15 0");
    assert_eq!(disassemble(0x7301), "ADD V3 1");
    assert_eq!(disassemble(0x7064), "ADD V0 100");
}

#[test]
fn register_pairs() {
    assert_eq!(disassemble(0x5120), "SE V1 V2");
    assert_eq!(disassemble(0x5AB7), "SE V10 V11");
    assert_eq!(disassemble(0x9120), "SNE V1 V2 ");
}

#[test]
fn arithmetic_family() {
    assert_eq!(disassemble(0x8120), "LD V1 V2");
    assert_eq!(disassemble(0x8121), "OR V1 V2");
    assert_eq!(disassemble(0x8122), "AND V1 V2");
    assert_eq!(disassemble(0x8123), "XOR V1 V2");
    assert_eq!(disassemble(0x8124), "ADD V1 V2");
    assert_eq!(disassemble(0x8125), "SUB V1 V2");
    assert_eq!(disassemble(0x8126), "SHR V1 {, V2}");
    assert_eq!(disassemble(0x8127), "SUBN V1 V2 ");
    assert_eq!(disassemble(0x812E), "SHL V1 V2 ");
}

#[test]
fn index_and_indexed_jump() {
    assert_eq!(disassemble(0xA123), "LD I 0x123 ");
    assert_eq!(disassemble(0xB123), "JP V0, 0x123 ");
    assert_eq!(disassemble(0xAFFF), "LD I 0xFFF ");
}

#[test]
fn random_and_draw() {
    assert_eq!(disassemble(0xC10F), "RND V1, 15 ");
    assert_eq!(disassemble(0xD125), "DRW V1 V2 5 ");
    assert_eq!(disassemble(0xDEFF), "DRW V14 V15 15 ");
}

#[test]
fn key_family() {
    assert_eq!(disassemble(0xE19E), "SKP V1 ");
    assert_eq!(disassemble(0xE1A1), "SKNP V1");
}

#[test]
fn misc_family() {
    assert_eq!(disassemble(0xF107), "LD V1, DT");
    assert_eq!(disassemble(0xF10A), "LD V1 K");
    assert_eq!(disassemble(0xF115), "LD DT V1");
    assert_eq!(disassemble(0xF118), "LD ST V1");
    assert_eq!(disassemble(0xF11E), "ADD I V1");
    assert_eq!(disassemble(0xF129), "LD F V1");
    assert_eq!(disassemble(0xF133), "LD B V1");
    assert_eq!(disassemble(0xF155), "LD [I] V1");
    assert_eq!(disassemble(0xFC65), "LD V12, [I]");
}

#[test]
fn every_word_disassembles() {
    let mut opcode: u32 = 0;
    while opcode <= 0xFFFF {
        let word = opcode as u16;
        let text = disassemble(word);
        match decode(word) {
            Some(instruction) => assert_eq!(text, render(instruction)),
            None => assert_eq!(text, format!("??? {:X}", word)),
        }
        opcode += 1;
    }
}

#[test]
fn numbers_match_the_standard_formatting() {
    let mut nnn: u16 = 0;
    while nnn < 0x1000 {
        assert_eq!(disassemble(0x1000 + nnn), format!("JP 0x{:X}", nnn));
        nnn += 1;
    }
    let mut kk: u16 = 0;
    while kk < 0x100 {
        assert_eq!(disassemble(0x6500 + kk), format!("LD V5 {}", kk));
        kk += 1;
    }
}

#[test]
fn decode_splits_the_operands() {
    assert_eq!(decode(0xD125), Some(Instruction::Drw { x: 1, y: 2, n: 5 }));
    assert_eq!(decode(0x3A2B), Some(Instruction::SeByte { x: 10, kk: 0x2B }));
    assert_eq!(decode(0x2ABC), Some(Instruction::Call { nnn: 0xABC }));
    assert_eq!(decode(0x0123), Some(Instruction::Sys { nnn: 0x123 }));
    assert_eq!(decode(0x812E), Some(Instruction::Shl { x: 1, y: 2 }));
    assert!(disassemble(0x812E).starts_with("SHL V1"));
    assert_eq!(decode(0xF533), Some(Instruction::LdBcd { x: 5 }));
    assert_eq!(decode(0x8128), None);
    assert_eq!(decode(0xE100), None);
    assert_eq!(decode(0xF100), None);
}

#[test]
fn unknown_words_lie_in_three_families_only() {
    let mut opcode: u32 = 0;
    let mut unknown: u32 = 0;
    while opcode <= 0xFFFF {
        if decode(opcode as u16).is_none() {
            let family = opcode >> 12;
            assert!(family == 0x8 || family == 0xE || family == 0xF);
            unknown += 1;
        }
        opcode += 1;
    }
    assert_eq!(unknown, 7 * 256 + 254 * 16 + 247 * 16);
}

#[test]
fn operand_range_check() {
    assert!(Instruction::Drw { x: 15, y: 15, n: 15 }.is_well_formed());
    assert!(!Instruction::Drw { x: 15, y: 15, n: 16 }.is_well_formed());
    assert!(!Instruction::AddReg { x: 16, y: 0 }.is_well_formed());
    assert!(!Instruction::AddReg { x: 0, y: 16 }.is_well_formed());
    assert!(Instruction::Jp { nnn: 0xFFF }.is_well_formed());
    assert!(!Instruction::Jp { nnn: 0x1000 }.is_well_formed());
    assert!(Instruction::LdByte { x: 3, kk: 0xFF }.is_well_formed());
    assert!(!Instruction::LoadRegs { x: 16 }.is_well_formed());
    assert!(Instruction::Cls.is_well_formed());
    let mut opcode: u32 = 0;
    while opcode <= 0xFFFF {
        if let Some(instruction) = decode(opcode as u16) {
            assert!(instruction.is_well_formed());
        }
        opcode += 1;
    }
}
