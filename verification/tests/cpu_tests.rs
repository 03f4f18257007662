use mos6502::cpu::Cpu;
use mos6502::cpu::Flag;

#[test]
fn new_cpu_initial_state() {
    let cpu = Cpu::new();
    assert_eq!(cpu.a, 0);
    assert_eq!(cpu.x, 0);
    assert_eq!(cpu.y, 0);
    assert_eq!(cpu.pc, 0);
    assert_eq!(cpu.sp(), 0xFF);
    assert_eq!(cpu.status(), 0);
}

#[test]
fn stack_push_pop_round_trip_for_every_value() {
    let mut cpu = Cpu::new();
    for v in 0..=255u8 {
        let sp_before = cpu.sp();
        cpu.push_stack(v);
        assert_eq!(cpu.sp(), sp_before.wrapping_sub(1));
        assert_eq!(cpu.pop_stack(), v);
        assert_eq!(cpu.sp(), sp_before);
    }
}

#[test]
fn stack_push_wraps_when_sp_is_zero() {
    let mut cpu = Cpu::new();
    // 255 pushes bring SP from 0xFF down to 0x00.
    for _ in 0..255 {
        cpu.push_stack(0);
    }
    assert_eq!(cpu.sp(), 0x00);
    cpu.push_stack(0x5A);
    assert_eq!(cpu.sp(), 0xFF);
    assert_eq!(cpu.bus.read_byte(0x0100), Ok(0x5A));
    assert_eq!(cpu.pop_stack(), 0x5A);
    assert_eq!(cpu.sp(), 0x00);
}

#[test]
fn stack_pop_wraps_when_sp_is_top() {
    let mut cpu = Cpu::new();
    assert_eq!(cpu.sp(), 0xFF);
    cpu.bus.write_byte(0x0100, 0xAB).unwrap();
    assert_eq!(cpu.pop_stack(), 0xAB);
    assert_eq!(cpu.sp(), 0x00);
}

#[test]
fn flags_are_independent_bits() {
    let mut cpu = Cpu::new();
    cpu.set_flag(Flag::Carry, true);
    cpu.set_flag(Flag::Negative, true);
    assert!(cpu.get_flag(Flag::Carry));
    assert!(cpu.get_flag(Flag::Negative));
    assert!(!cpu.get_flag(Flag::Zero));
    assert!(!cpu.get_flag(Flag::Overflow));
    assert!(!cpu.get_flag(Flag::InterruptDisable));
    assert!(!cpu.get_flag(Flag::Decimal));
    assert_eq!(cpu.status(), 0x81);
    cpu.set_flag(Flag::Carry, false);
    assert!(!cpu.get_flag(Flag::Carry));
    assert!(cpu.get_flag(Flag::Negative));
    assert_eq!(cpu.status(), 0x80);
}

#[test]
fn flag_bit_positions_match_the_packed_layout() {
    let mut cpu = Cpu::new();
    let all = [
        (Flag::Carry, 0x01u8),
        (Flag::Zero, 0x02),
        (Flag::InterruptDisable, 0x04),
        (Flag::Decimal, 0x08),
        (Flag::Overflow, 0x40),
        (Flag::Negative, 0x80),
    ];
    for (flag, mask) in all {
        cpu.set_flag(flag, true);
        assert_eq!(cpu.status(), mask);
        cpu.set_flag(flag, false);
        assert_eq!(cpu.status(), 0);
    }
}
