use mos6502::cpu::Cpu;
use mos6502::cpu::Flag;
use mos6502::errors::EmuError;
use mos6502::instruction::AddrMode;
use mos6502::instruction::Instruction;
use mos6502::instruction::Opcode;

fn load(cpu: &mut Cpu, at: u16, bytes: &[u8]) {
    for (i, b) in bytes.iter().enumerate() {
        cpu.bus.write_byte(at + i as u16, *b).unwrap();
    }
}

#[test]
fn adc_signed_overflow_case() {
    let mut cpu = Cpu::new();
    cpu.a = 0x50;
    load(&mut cpu, 0, &[0x50]);
    cpu.execute_instruction(Instruction(Opcode::ADC, AddrMode::IMM, 2))
        .unwrap();
    assert_eq!(cpu.a, 0xA0);
    assert!(cpu.get_flag(Flag::Overflow));
    assert!(!cpu.get_flag(Flag::Carry));
    assert!(cpu.get_flag(Flag::Negative));
    assert!(!cpu.get_flag(Flag::Zero));
}

#[test]
fn adc_carry_out_case() {
    let mut cpu = Cpu::new();
    cpu.a = 0xFF;
    load(&mut cpu, 0, &[0x01]);
    cpu.execute_instruction(Instruction(Opcode::ADC, AddrMode::IMM, 2))
        .unwrap();
    assert_eq!(cpu.a, 0x00);
    assert!(cpu.get_flag(Flag::Carry));
    assert!(cpu.get_flag(Flag::Zero));
    assert!(!cpu.get_flag(Flag::Overflow));
}

#[test]
fn adc_adds_the_carry_in() {
    let mut cpu = Cpu::new();
    cpu.a = 0x10;
    cpu.set_flag(Flag::Carry, true);
    load(&mut cpu, 0, &[0x05]);
    cpu.execute_instruction(Instruction(Opcode::ADC, AddrMode::IMM, 2))
        .unwrap();
    assert_eq!(cpu.a, 0x16);
    assert!(!cpu.get_flag(Flag::Carry));
}

#[test]
fn sbc_with_carry_set_subtracts_exactly() {
    let mut cpu = Cpu::new();
    cpu.a = 0x50;
    cpu.set_flag(Flag::Carry, true);
    load(&mut cpu, 0, &[0x10]);
    cpu.execute_instruction(Instruction(Opcode::SBC, AddrMode::IMM, 2))
        .unwrap();
    assert_eq!(cpu.a, 0x40);
    assert!(cpu.get_flag(Flag::Carry));
    assert!(!cpu.get_flag(Flag::Zero));
}

#[test]
fn zero_page_x_wraps_within_the_zero_page() {
    let mut cpu = Cpu::new();
    cpu.x = 0x02;
    load(&mut cpu, 0, &[0xFF]);
    cpu.bus.write_byte(0x0001, 0xAB).unwrap();
    let r = cpu.get_args(&AddrMode::ZPX);
    assert_eq!(r, Ok((0x0001, 0xAB)));
    assert_eq!(cpu.pc, 1);
}

#[test]
fn relative_mode_consumes_the_offset_byte() {
    let mut cpu = Cpu::new();
    load(&mut cpu, 0, &[0x7F]);
    let r = cpu.get_args(&AddrMode::REL);
    assert_eq!(r, Ok((0, 0x7F)));
    assert_eq!(cpu.pc, 1);
}

#[test]
fn bit_sets_negative_and_overflow_from_the_operand() {
    let mut cpu = Cpu::new();
    cpu.a = 0x00;
    load(&mut cpu, 0, &[0x10]);
    cpu.bus.write_byte(0x0010, 0xC0).unwrap();
    cpu.execute_instruction(Instruction(Opcode::BIT, AddrMode::ZP, 3))
        .unwrap();
    assert!(cpu.get_flag(Flag::Negative));
    assert!(cpu.get_flag(Flag::Overflow));
    assert!(cpu.get_flag(Flag::Zero));
    assert_eq!(cpu.a, 0x00);
}

#[test]
fn branch_not_taken_stops_after_the_two_byte_instruction() {
    let mut cpu = Cpu::new();
    cpu.pc = 0x20;
    load(&mut cpu, 0x20, &[0x90, 0x05]); // BCC +5
    cpu.set_flag(Flag::Carry, true);
    cpu.step().unwrap();
    assert_eq!(cpu.pc, 0x22);
}

#[test]
fn branch_taken_forward_adds_the_offset() {
    let mut cpu = Cpu::new();
    cpu.pc = 0x20;
    load(&mut cpu, 0x20, &[0x90, 0x05]); // BCC +5
    cpu.step().unwrap();
    assert_eq!(cpu.pc, 0x27);
}

#[test]
fn branch_taken_backward_subtracts_the_offset() {
    let mut cpu = Cpu::new();
    cpu.pc = 0x20;
    load(&mut cpu, 0x20, &[0x90, 0xFC]); // BCC -4
    cpu.step().unwrap();
    assert_eq!(cpu.pc, 0x1E);
}

#[test]
fn lda_then_sta_moves_a_byte_through_memory() {
    let mut cpu = Cpu::new();
    load(&mut cpu, 0, &[0xA9, 0x42, 0x8D, 0x00, 0x02]); // LDA #$42; STA $0200
    cpu.step().unwrap();
    assert_eq!(cpu.a, 0x42);
    cpu.step().unwrap();
    assert_eq!(cpu.bus.read_byte(0x0200), Ok(0x42));
    assert_eq!(cpu.pc, 5);
}

#[test]
fn asl_on_the_accumulator() {
    let mut cpu = Cpu::new();
    cpu.a = 0x81;
    cpu.execute_instruction(Instruction(Opcode::ASL, AddrMode::ACC, 2))
        .unwrap();
    assert_eq!(cpu.a, 0x02);
    assert!(cpu.get_flag(Flag::Carry));
    assert!(!cpu.get_flag(Flag::Negative));
    assert!(!cpu.get_flag(Flag::Zero));
}

#[test]
fn lsr_shifts_the_low_bit_into_carry() {
    let mut cpu = Cpu::new();
    cpu.a = 0x01;
    cpu.execute_instruction(Instruction(Opcode::LSR, AddrMode::ACC, 2))
        .unwrap();
    assert_eq!(cpu.a, 0x00);
    assert!(cpu.get_flag(Flag::Carry));
    assert!(cpu.get_flag(Flag::Zero));
}

#[test]
fn rol_and_ror_rotate_through_carry() {
    let mut cpu = Cpu::new();
    cpu.a = 0x80;
    cpu.set_flag(Flag::Carry, true);
    cpu.execute_instruction(Instruction(Opcode::ROL, AddrMode::ACC, 2))
        .unwrap();
    assert_eq!(cpu.a, 0x01);
    assert!(cpu.get_flag(Flag::Carry));

    let mut cpu2 = Cpu::new();
    cpu2.a = 0x01;
    cpu2.set_flag(Flag::Carry, true);
    cpu2.execute_instruction(Instruction(Opcode::ROR, AddrMode::ACC, 2))
        .unwrap();
    assert_eq!(cpu2.a, 0x80);
    assert!(cpu2.get_flag(Flag::Carry));
    assert!(cpu2.get_flag(Flag::Negative));
}

#[test]
fn asl_writes_back_to_memory() {
    let mut cpu = Cpu::new();
    load(&mut cpu, 0, &[0x10]);
    cpu.bus.write_byte(0x0010, 0x40).unwrap();
    cpu.execute_instruction(Instruction(Opcode::ASL, AddrMode::ZP, 5))
        .unwrap();
    assert_eq!(cpu.bus.read_byte(0x0010), Ok(0x80));
    assert!(cpu.get_flag(Flag::Negative));
}

#[test]
fn inc_and_dec_wrap_in_memory() {
    let mut cpu = Cpu::new();
    load(&mut cpu, 0, &[0x10]);
    cpu.bus.write_byte(0x0010, 0xFF).unwrap();
    cpu.execute_instruction(Instruction(Opcode::INC, AddrMode::ZP, 5))
        .unwrap();
    assert_eq!(cpu.bus.read_byte(0x0010), Ok(0x00));
    assert!(cpu.get_flag(Flag::Zero));

    cpu.pc = 0;
    cpu.execute_instruction(Instruction(Opcode::DEC, AddrMode::ZP, 5))
        .unwrap();
    assert_eq!(cpu.bus.read_byte(0x0010), Ok(0xFF));
    assert!(cpu.get_flag(Flag::Negative));
}

#[test]
fn inx_wraps_at_the_register_width() {
    let mut cpu = Cpu::new();
    cpu.x = 0xFF;
    cpu.execute_instruction(Instruction(Opcode::INX, AddrMode::IMP, 2))
        .unwrap();
    assert_eq!(cpu.x, 0x00);
    assert!(cpu.get_flag(Flag::Zero));
}

#[test]
fn compare_sets_carry_zero_negative() {
    let mut cpu = Cpu::new();
    cpu.a = 0x30;
    load(&mut cpu, 0, &[0x20]);
    cpu.execute_instruction(Instruction(Opcode::CMP, AddrMode::IMM, 2))
        .unwrap();
    assert!(cpu.get_flag(Flag::Carry));
    assert!(!cpu.get_flag(Flag::Zero));
    assert!(!cpu.get_flag(Flag::Negative));

    cpu.pc = 0;
    cpu.a = 0x20;
    cpu.execute_instruction(Instruction(Opcode::CMP, AddrMode::IMM, 2))
        .unwrap();
    assert!(cpu.get_flag(Flag::Carry));
    assert!(cpu.get_flag(Flag::Zero));

    cpu.pc = 0;
    cpu.a = 0x10;
    cpu.execute_instruction(Instruction(Opcode::CMP, AddrMode::IMM, 2))
        .unwrap();
    assert!(!cpu.get_flag(Flag::Carry));
    assert!(cpu.get_flag(Flag::Negative));
}

#[test]
fn jsr_then_rts_round_trip() {
    let mut cpu = Cpu::new();
    load(&mut cpu, 0, &[0x20, 0x00, 0x03]); // JSR $0300
    cpu.bus.write_byte(0x0300, 0x60).unwrap(); // RTS
    cpu.step().unwrap();
    assert_eq!(cpu.pc, 0x0300);
    assert_eq!(cpu.sp(), 0xFD);
    cpu.step().unwrap();
    assert_eq!(cpu.pc, 0x0003);
    assert_eq!(cpu.sp(), 0xFF);
}

#[test]
fn jmp_indirect_follows_the_page_boundary_quirk() {
    let mut cpu = Cpu::new();
    load(&mut cpu, 0, &[0x6C, 0xFF, 0x02]); // JMP ($02FF)
    cpu.bus.write_byte(0x02FF, 0x34).unwrap();
    cpu.bus.write_byte(0x0200, 0x12).unwrap(); // high byte wraps within the page
    cpu.bus.write_byte(0x0300, 0x56).unwrap(); // would be read without the quirk
    cpu.step().unwrap();
    assert_eq!(cpu.pc, 0x1234);
}

#[test]
fn indexed_indirect_and_indirect_indexed_loads() {
    let mut cpu = Cpu::new();
    cpu.x = 0x04;
    load(&mut cpu, 0, &[0xA1, 0x20]); // LDA ($20,X)
    cpu.bus.write_byte(0x0024, 0x34).unwrap();
    cpu.bus.write_byte(0x0025, 0x02).unwrap();
    cpu.bus.write_byte(0x0234, 0x99).unwrap();
    cpu.step().unwrap();
    assert_eq!(cpu.a, 0x99);

    let mut cpu2 = Cpu::new();
    cpu2.y = 0x10;
    load(&mut cpu2, 0, &[0xB1, 0x30]); // LDA ($30),Y
    cpu2.bus.write_byte(0x0030, 0x00).unwrap();
    cpu2.bus.write_byte(0x0031, 0x02).unwrap();
    cpu2.bus.write_byte(0x0210, 0x55).unwrap();
    cpu2.step().unwrap();
    assert_eq!(cpu2.a, 0x55);
}

#[test]
fn absolute_indexed_load() {
    let mut cpu = Cpu::new();
    cpu.x = 0x05;
    load(&mut cpu, 0, &[0xBD, 0x00, 0x02]); // LDA $0200,X
    cpu.bus.write_byte(0x0205, 0x66).unwrap();
    cpu.step().unwrap();
    assert_eq!(cpu.a, 0x66);
    assert_eq!(cpu.pc, 3);
}

#[test]
fn ldx_zero_page_y() {
    let mut cpu = Cpu::new();
    cpu.y = 0x03;
    load(&mut cpu, 0, &[0xB6, 0x05]); // LDX $05,Y
    cpu.bus.write_byte(0x0008, 0x77).unwrap();
    cpu.step().unwrap();
    assert_eq!(cpu.x, 0x77);
}

#[test]
fn pha_pla_round_trip() {
    let mut cpu = Cpu::new();
    cpu.a = 0x42;
    cpu.execute_instruction(Instruction(Opcode::PHA, AddrMode::IMP, 3))
        .unwrap();
    cpu.a = 0x00;
    cpu.execute_instruction(Instruction(Opcode::PLA, AddrMode::IMP, 4))
        .unwrap();
    assert_eq!(cpu.a, 0x42);
    assert_eq!(cpu.sp(), 0xFF);
}

#[test]
fn php_plp_round_trip_without_the_unused_bits() {
    let mut cpu = Cpu::new();
    cpu.set_flag(Flag::Carry, true);
    cpu.set_flag(Flag::Negative, true);
    cpu.execute_instruction(Instruction(Opcode::PHP, AddrMode::IMP, 3))
        .unwrap();
    cpu.set_flag(Flag::Carry, false);
    cpu.set_flag(Flag::Negative, false);
    cpu.execute_instruction(Instruction(Opcode::PLP, AddrMode::IMP, 4))
        .unwrap();
    assert!(cpu.get_flag(Flag::Carry));
    assert!(cpu.get_flag(Flag::Negative));
    // Bits 4 and 5 exist only on the pushed copy, never in the register.
    assert_eq!(cpu.status() & 0x30, 0);
}

#[test]
fn transfers_move_registers_and_set_flags() {
    let mut cpu = Cpu::new();
    cpu.a = 0x80;
    cpu.execute_instruction(Instruction(Opcode::TAX, AddrMode::IMP, 2))
        .unwrap();
    assert_eq!(cpu.x, 0x80);
    assert!(cpu.get_flag(Flag::Negative));

    cpu.execute_instruction(Instruction(Opcode::TSX, AddrMode::IMP, 2))
        .unwrap();
    assert_eq!(cpu.x, 0xFF);

    cpu.x = 0x00;
    cpu.set_flag(Flag::Zero, false);
    cpu.execute_instruction(Instruction(Opcode::TXS, AddrMode::IMP, 2))
        .unwrap();
    assert_eq!(cpu.sp(), 0x00);
    // TXS touches no flag.
    assert!(!cpu.get_flag(Flag::Zero));
}

#[test]
fn logic_operations_combine_with_the_accumulator() {
    let mut cpu = Cpu::new();
    cpu.a = 0xF0;
    load(&mut cpu, 0, &[0x0F]);
    cpu.execute_instruction(Instruction(Opcode::ORA, AddrMode::IMM, 2))
        .unwrap();
    assert_eq!(cpu.a, 0xFF);
    assert!(cpu.get_flag(Flag::Negative));

    cpu.pc = 0;
    load(&mut cpu, 0, &[0x0F]);
    cpu.execute_instruction(Instruction(Opcode::AND, AddrMode::IMM, 2))
        .unwrap();
    assert_eq!(cpu.a, 0x0F);

    cpu.pc = 0;
    load(&mut cpu, 0, &[0x0F]);
    cpu.execute_instruction(Instruction(Opcode::EOR, AddrMode::IMM, 2))
        .unwrap();
    assert_eq!(cpu.a, 0x00);
    assert!(cpu.get_flag(Flag::Zero));
}

#[test]
fn flag_instructions_set_and_clear() {
    let mut cpu = Cpu::new();
    cpu.execute_instruction(Instruction(Opcode::SEC, AddrMode::IMP, 2))
        .unwrap();
    assert!(cpu.get_flag(Flag::Carry));
    cpu.execute_instruction(Instruction(Opcode::SEI, AddrMode::IMP, 2))
        .unwrap();
    assert!(cpu.get_flag(Flag::InterruptDisable));
    cpu.execute_instruction(Instruction(Opcode::SED, AddrMode::IMP, 2))
        .unwrap();
    assert!(cpu.get_flag(Flag::Decimal));
    cpu.execute_instruction(Instruction(Opcode::CLC, AddrMode::IMP, 2))
        .unwrap();
    assert!(!cpu.get_flag(Flag::Carry));
    cpu.execute_instruction(Instruction(Opcode::CLI, AddrMode::IMP, 2))
        .unwrap();
    assert!(!cpu.get_flag(Flag::InterruptDisable));
    cpu.execute_instruction(Instruction(Opcode::CLD, AddrMode::IMP, 2))
        .unwrap();
    assert!(!cpu.get_flag(Flag::Decimal));
}

#[test]
fn unsupported_opcode_leaves_the_machine_unchanged() {
    let mut cpu = Cpu::new();
    load(&mut cpu, 0, &[0x02]);
    assert_eq!(cpu.step(), Err(EmuError::UnsupportedOpcode(0x02)));
    assert_eq!(cpu.pc, 0);
}

#[test]
fn fetch_outside_the_mapped_region_fails() {
    let mut cpu = Cpu::new();
    cpu.pc = 0x0900;
    assert_eq!(cpu.step(), Err(EmuError::OutOfRange(0x0900)));
    assert_eq!(cpu.pc, 0x0900);
}

#[test]
fn store_outside_the_mapped_region_fails_without_partial_effects() {
    let mut cpu = Cpu::new();
    cpu.a = 0x42;
    load(&mut cpu, 0, &[0x8D, 0x00, 0x09]); // STA $0900
    assert_eq!(cpu.step(), Err(EmuError::OutOfRange(0x0900)));
    assert_eq!(cpu.pc, 0); // PC rolled back: nothing half-applied
    assert_eq!(cpu.a, 0x42);
}

#[test]
fn brk_without_a_mapped_vector_fails_cleanly() {
    let mut cpu = Cpu::new();
    load(&mut cpu, 0, &[0x00]); // BRK
    assert_eq!(cpu.step(), Err(EmuError::OutOfRange(0xFFFE)));
    assert_eq!(cpu.pc, 0);
    assert_eq!(cpu.sp(), 0xFF); // nothing was pushed
}

#[test]
fn rti_restores_status_and_program_counter() {
    let mut cpu = Cpu::new();
    // Hand-build the frame an interrupt would leave: PC high, PC low, status.
    cpu.push_stack(0x03); // PC high
    cpu.push_stack(0x21); // PC low
    cpu.push_stack(0xB1); // status with bits 4..5 set on the pushed copy
    cpu.execute_instruction(Instruction(Opcode::RTI, AddrMode::IMP, 6))
        .unwrap();
    assert_eq!(cpu.pc, 0x0321);
    assert_eq!(cpu.status(), 0x81); // unused bits discarded
    assert_eq!(cpu.sp(), 0xFF);
}

#[test]
fn nop_only_advances_the_program_counter() {
    let mut cpu = Cpu::new();
    load(&mut cpu, 0, &[0xEA]);
    cpu.step().unwrap();
    assert_eq!(cpu.pc, 1);
    assert_eq!(cpu.a, 0);
    assert_eq!(cpu.status(), 0);
    assert_eq!(cpu.sp(), 0xFF);
}
