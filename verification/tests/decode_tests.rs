use mos6502::errors::EmuError;
use mos6502::instruction::AddrMode;
use mos6502::instruction::Instruction;
use mos6502::instruction::Opcode;

#[test]
fn decode_is_total_and_deterministic_over_all_bytes() {
    let mut legal = 0;
    for byte in 0..=255u8 {
        let first = Instruction::from_byte(byte);
        let second = Instruction::from_byte(byte);
        assert_eq!(first, second);
        match first {
            Ok(_) => legal += 1,
            Err(e) => assert_eq!(e, EmuError::UnsupportedOpcode(byte)),
        }
    }
    assert_eq!(legal, 151);
}

#[test]
fn decode_known_opcodes() {
    assert_eq!(
        Instruction::from_byte(0x69),
        Ok(Instruction(Opcode::ADC, AddrMode::IMM, 2))
    );
    assert_eq!(
        Instruction::from_byte(0xA9),
        Ok(Instruction(Opcode::LDA, AddrMode::IMM, 2))
    );
    assert_eq!(
        Instruction::from_byte(0x00),
        Ok(Instruction(Opcode::BRK, AddrMode::IMP, 7))
    );
    assert_eq!(
        Instruction::from_byte(0x6C),
        Ok(Instruction(Opcode::JMP, AddrMode::IND, 5))
    );
    assert_eq!(
        Instruction::from_byte(0x96),
        Ok(Instruction(Opcode::STX, AddrMode::ZPY, 4))
    );
    assert_eq!(
        Instruction::from_byte(0x1E),
        Ok(Instruction(Opcode::ASL, AddrMode::ABX, 7))
    );
    assert_eq!(
        Instruction::from_byte(0xEA),
        Ok(Instruction(Opcode::NOP, AddrMode::IMP, 2))
    );
    assert_eq!(
        Instruction::from_byte(0x49),
        Ok(Instruction(Opcode::EOR, AddrMode::IMM, 2))
    );
    assert_eq!(
        Instruction::from_byte(0x45),
        Ok(Instruction(Opcode::EOR, AddrMode::ZP, 3))
    );
}

#[test]
fn decode_illegal_opcode_reports_the_byte() {
    assert_eq!(
        Instruction::from_byte(0x02),
        Err(EmuError::UnsupportedOpcode(0x02))
    );
    assert_eq!(
        Instruction::from_byte(0x80),
        Err(EmuError::UnsupportedOpcode(0x80))
    );
    assert_eq!(
        Instruction::from_byte(0xFF),
        Err(EmuError::UnsupportedOpcode(0xFF))
    );
}
