use nes_core::instruction::AddressMode;
use nes_core::instruction::Instruction;
use nes_core::instruction::Mnemonic;
use nes_core::instruction::match_cc_00;
use nes_core::instruction::match_cc_01;
use nes_core::instruction::match_cc_10;
use nes_core::instruction::operand_len;

#[test]
fn decode_min_cycles_all() {
    // Every opcode byte that decodes successfully charges at least two
    // base cycles; exactly 151 bytes decode.
    let mut decoded = 0;
    for code in 0..=255u8 {
        if let Some(i) = Instruction::from_code(code) {
            assert!(i.cycles >= 2);
            assert!(i.cycles <= 7);
            assert_eq!(i.code, code);
            decoded += 1;
        }
    }
    assert_eq!(decoded, 151);
}

#[test]
fn decode_spot_entries() {
    let i = Instruction::from_code(0xa9).unwrap();
    assert_eq!(i.mnemonic, Mnemonic::LDA);
    assert_eq!(i.address_mode, AddressMode::Immediate);
    assert_eq!(i.cycles, 2);

    let i = Instruction::from_code(0x6c).unwrap();
    assert_eq!(i.mnemonic, Mnemonic::JMP);
    assert_eq!(i.address_mode, AddressMode::Indirect);
    assert_eq!(i.cycles, 5);

    let i = Instruction::from_code(0x00).unwrap();
    assert_eq!(i.mnemonic, Mnemonic::BRK);
    assert_eq!(i.address_mode, AddressMode::Implied);
    assert_eq!(i.cycles, 7);

    let i = Instruction::from_code(0xbd).unwrap();
    assert_eq!(i.mnemonic, Mnemonic::LDA);
    assert_eq!(i.address_mode, AddressMode::AbsoluteXIndexed);
    assert_eq!(i.cycles, 4);
}

#[test]
fn unknown_opcode_decodes_none() {
    assert!(Instruction::from_code(0x02).is_none());
    assert!(Instruction::from_code(0xff).is_none());
    assert!(Instruction::from_code(0x80).is_none());
}

#[test]
fn operand_lengths() {
    assert_eq!(operand_len(AddressMode::Implied), 0);
    assert_eq!(operand_len(AddressMode::Accumulator), 0);
    assert_eq!(operand_len(AddressMode::Immediate), 1);
    assert_eq!(operand_len(AddressMode::ZeroPage), 1);
    assert_eq!(operand_len(AddressMode::Relative), 1);
    assert_eq!(operand_len(AddressMode::Absolute), 2);
    assert_eq!(operand_len(AddressMode::Indirect), 2);
    assert_eq!(operand_len(AddressMode::AbsoluteYIndexed), 2);
}

#[test]
fn match_cc_helpers() {
    assert_eq!(match_cc_00(0b001, 0b001), Some((Mnemonic::BIT, AddressMode::ZeroPage)));
    assert_eq!(match_cc_00(0b000, 0b001), None);
    assert_eq!(match_cc_01(0b101, 0b010), Some((Mnemonic::LDA, AddressMode::Immediate)));
    assert_eq!(match_cc_01(0b100, 0b000), Some((Mnemonic::STA, AddressMode::XIndexedIndirect)));
    assert_eq!(
        match_cc_10(0b101, 0b101),
        Some((Mnemonic::LDX, AddressMode::ZeroPageYIndexed))
    );
    assert_eq!(
        match_cc_10(0b000, 0b101),
        Some((Mnemonic::ASL, AddressMode::ZeroPageXIndexed))
    );
    assert_eq!(
        match_cc_10(0b101, 0b111),
        Some((Mnemonic::LDX, AddressMode::AbsoluteYIndexed))
    );
    assert_eq!(match_cc_10(0b000, 0b100), None);
}
