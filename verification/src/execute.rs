use vstd::prelude::*;

use crate::addressing::abs_index;
use crate::addressing::lo_hi;
use crate::addressing::pc_plus;
use crate::addressing::spec_resolve;
use crate::bus::spec_read;
use crate::bus::spec_write;
use crate::bus::RAM_SIZE;
use crate::cpu::spec_flag_set;
use crate::cpu::spec_pop_stack;
use crate::cpu::spec_pop_value;
use crate::cpu::spec_push_stack;
use crate::cpu::spec_set_flag;
use crate::cpu::Cpu;
use crate::cpu::CpuView;
use crate::cpu::Flag;
use crate::errors::EmuError;
use crate::instruction::spec_decode;
use crate::instruction::AddrMode;
use crate::instruction::Instruction;
use crate::instruction::Opcode;

verus! {

/// `p` with Zero set from `r == 0` and Negative from bit 7 of `r`.
pub open spec fn spec_zn(p: u8, r: u8) -> u8 {
    spec_set_flag(spec_set_flag(p, Flag::Zero, r == 0), Flag::Negative, r & 0x80 == 0x80)
}

/// Add with carry: `result = A + operand + Carry`. Carry is set when the
/// full result exceeds 0xFF, Zero from the truncated result, Overflow by
/// the sign-mismatch test `(A ^ result) & (operand ^ result) & 0x80`, and
/// Negative from bit 7 of the truncated result, which lands in A.
pub open spec fn spec_adc(c: CpuView, val: u8) -> CpuView {
    let carry_in: int = if spec_flag_set(c.p, Flag::Carry) {
        1
    } else {
        0
    };
    let sum = c.a + val + carry_in;
    let r8 = (sum % 0x100) as u8;
    let p1 = spec_set_flag(c.p, Flag::Carry, sum > 0xFF);
    let p2 = spec_set_flag(p1, Flag::Zero, r8 == 0);
    let p3 = spec_set_flag(p2, Flag::Overflow, (c.a ^ r8) & (val ^ r8) & 0x80 == 0x80);
    let p4 = spec_set_flag(p3, Flag::Negative, r8 & 0x80 == 0x80);
    CpuView { a: r8, p: p4, ..c }
}

/// Compare: subtracts `val` from `reg` for flag purposes only. Carry holds
/// `reg >= val`, Zero holds equality, Negative is bit 7 of the 8-bit
/// difference. No register changes.
pub open spec fn spec_compare_p(p: u8, reg: u8, val: u8) -> u8 {
    let diff = (((reg - val) + 0x100) % 0x100) as u8;
    spec_set_flag(
        spec_set_flag(spec_set_flag(p, Flag::Carry, reg >= val), Flag::Zero, reg == val),
        Flag::Negative,
        diff & 0x80 == 0x80,
    )
}

/// The branch destination: the signed relative offset added to the PC that
/// already points past the branch instruction, wrapping at 16 bits.
pub open spec fn branch_target(pc: u16, off: u8) -> u16 {
    if off < 0x80 {
        ((pc + off) % 0x10000) as u16
    } else {
        ((pc + off + 0xFF00) % 0x10000) as u16
    }
}

/// The flag test each branch operation performs; `false` for any
/// non-branch operation.
pub open spec fn spec_branch_cond(p: u8, op: Opcode) -> bool {
    match op {
        Opcode::BCC => !spec_flag_set(p, Flag::Carry),
        Opcode::BCS => spec_flag_set(p, Flag::Carry),
        Opcode::BEQ => spec_flag_set(p, Flag::Zero),
        Opcode::BNE => !spec_flag_set(p, Flag::Zero),
        Opcode::BMI => spec_flag_set(p, Flag::Negative),
        Opcode::BPL => !spec_flag_set(p, Flag::Negative),
        Opcode::BVC => !spec_flag_set(p, Flag::Overflow),
        Opcode::BVS => spec_flag_set(p, Flag::Overflow),
        _ => false,
    }
}

/// The shifted or rotated byte a shift operation produces from `v`.
pub open spec fn spec_shift_res(op: Opcode, v: u8, carry_in: bool) -> u8 {
    match op {
        Opcode::ASL => v << 1,
        Opcode::LSR => v >> 1,
        Opcode::ROL => (v << 1) | (if carry_in {
            1
        } else {
            0
        }),
        Opcode::ROR => (v >> 1) | (if carry_in {
            0x80
        } else {
            0
        }),
        _ => 0,
    }
}

/// The bit a shift operation pushes out into Carry.
pub open spec fn spec_shift_carry(op: Opcode, v: u8) -> bool {
    match op {
        Opcode::ASL | Opcode::ROL => v & 0x80 == 0x80,
        Opcode::LSR | Opcode::ROR => v & 0x01 == 0x01,
        _ => false,
    }
}

/// Where a read-modify-write result lands: in A for Accumulator mode,
/// otherwise in memory at the effective address; `p2` is the status
/// register after the operation's flag updates. A write outside the
/// mapped region fails, leaving the machine untouched.
pub open spec fn spec_store_result(c: CpuView, mode: AddrMode, addr: u16, res: u8, p2: u8) -> Result<
    CpuView,
    EmuError,
> {
    if mode == AddrMode::ACC {
        Ok(CpuView { a: res, p: p2, ..c })
    } else {
        match spec_write(c.ram, addr, res) {
            Ok(ram) => Ok(CpuView { ram, p: p2, ..c }),
            Err(e) => Err(e),
        }
    }
}

/// One operation applied to the machine `c`, whose PC already points past
/// the operand bytes; `addr` and `val` are the resolved effective address
/// and operand value. This is the complete execution rule of the core:
/// every documented operation has an arm, and the only failures are
/// out-of-range bus accesses.
pub open spec fn spec_exec_op(c: CpuView, op: Opcode, mode: AddrMode, addr: u16, val: u8) -> Result<
    CpuView,
    EmuError,
> {
    match op {
        Opcode::ADC => Ok(spec_adc(c, val)),
        Opcode::SBC => Ok(spec_adc(c, val ^ 0xFF)),
        Opcode::AND => {
            let r = c.a & val;
            Ok(CpuView { a: r, p: spec_zn(c.p, r), ..c })
        },
        Opcode::ORA => {
            let r = c.a | val;
            Ok(CpuView { a: r, p: spec_zn(c.p, r), ..c })
        },
        Opcode::EOR => {
            let r = c.a ^ val;
            Ok(CpuView { a: r, p: spec_zn(c.p, r), ..c })
        },
        Opcode::ASL | Opcode::LSR | Opcode::ROL | Opcode::ROR => {
            let res = spec_shift_res(op, val, spec_flag_set(c.p, Flag::Carry));
            let p2 = spec_zn(spec_set_flag(c.p, Flag::Carry, spec_shift_carry(op, val)), res);
            spec_store_result(c, mode, addr, res, p2)
        },
        Opcode::BCC | Opcode::BCS | Opcode::BEQ | Opcode::BNE | Opcode::BMI | Opcode::BPL
            | Opcode::BVC | Opcode::BVS => Ok(
            if spec_branch_cond(c.p, op) {
                CpuView { pc: branch_target(c.pc, val), ..c }
            } else {
                c
            },
        ),
        Opcode::BIT => {
            let p2 = spec_set_flag(
                spec_set_flag(
                    spec_set_flag(c.p, Flag::Zero, c.a & val == 0),
                    Flag::Overflow,
                    val & 0x40 == 0x40,
                ),
                Flag::Negative,
                val & 0x80 == 0x80,
            );
            Ok(CpuView { p: p2, ..c })
        },
        Opcode::BRK => match spec_read(c.ram, 0xFFFE) {
            Err(e) => Err(e),
            Ok(lo) => match spec_read(c.ram, 0xFFFF) {
                Err(e) => Err(e),
                Ok(hi) => {
                    let ret = ((c.pc + 1) % 0x10000) as u16;
                    let c1 = spec_push_stack(c, (ret / 0x100) as u8);
                    let c2 = spec_push_stack(c1, (ret % 0x100) as u8);
                    let c3 = spec_push_stack(c2, c.p | 0x30);
                    Ok(
                        CpuView {
                            pc: lo_hi(lo, hi),
                            p: spec_set_flag(c.p, Flag::InterruptDisable, true),
                            ..c3
                        },
                    )
                },
            },
        },
        Opcode::CLC => Ok(CpuView { p: spec_set_flag(c.p, Flag::Carry, false), ..c }),
        Opcode::CLD => Ok(CpuView { p: spec_set_flag(c.p, Flag::Decimal, false), ..c }),
        Opcode::CLI => Ok(CpuView { p: spec_set_flag(c.p, Flag::InterruptDisable, false), ..c }),
        Opcode::CLV => Ok(CpuView { p: spec_set_flag(c.p, Flag::Overflow, false), ..c }),
        Opcode::SEC => Ok(CpuView { p: spec_set_flag(c.p, Flag::Carry, true), ..c }),
        Opcode::SED => Ok(CpuView { p: spec_set_flag(c.p, Flag::Decimal, true), ..c }),
        Opcode::SEI => Ok(CpuView { p: spec_set_flag(c.p, Flag::InterruptDisable, true), ..c }),
        Opcode::CMP => Ok(CpuView { p: spec_compare_p(c.p, c.a, val), ..c }),
        Opcode::CPX => Ok(CpuView { p: spec_compare_p(c.p, c.x, val), ..c }),
        Opcode::CPY => Ok(CpuView { p: spec_compare_p(c.p, c.y, val), ..c }),
        Opcode::DEC => {
            let res = (((val + 0xFF) % 0x100)) as u8;
            spec_store_result(c, mode, addr, res, spec_zn(c.p, res))
        },
        Opcode::INC => {
            let res = (((val + 1) % 0x100)) as u8;
            spec_store_result(c, mode, addr, res, spec_zn(c.p, res))
        },
        Opcode::DEX => {
            let r = (((c.x + 0xFF) % 0x100)) as u8;
            Ok(CpuView { x: r, p: spec_zn(c.p, r), ..c })
        },
        Opcode::DEY => {
            let r = (((c.y + 0xFF) % 0x100)) as u8;
            Ok(CpuView { y: r, p: spec_zn(c.p, r), ..c })
        },
        Opcode::INX => {
            let r = (((c.x + 1) % 0x100)) as u8;
            Ok(CpuView { x: r, p: spec_zn(c.p, r), ..c })
        },
        Opcode::INY => {
            let r = (((c.y + 1) % 0x100)) as u8;
            Ok(CpuView { y: r, p: spec_zn(c.p, r), ..c })
        },
        Opcode::JMP => Ok(CpuView { pc: addr, ..c }),
        Opcode::JSR => {
            let ret = ((c.pc + 0xFFFF) % 0x10000) as u16;
            let c1 = spec_push_stack(c, (ret / 0x100) as u8);
            let c2 = spec_push_stack(c1, (ret % 0x100) as u8);
            Ok(CpuView { pc: addr, ..c2 })
        },
        Opcode::LDA => Ok(CpuView { a: val, p: spec_zn(c.p, val), ..c }),
        Opcode::LDX => Ok(CpuView { x: val, p: spec_zn(c.p, val), ..c }),
        Opcode::LDY => Ok(CpuView { y: val, p: spec_zn(c.p, val), ..c }),
        Opcode::NOP => Ok(c),
        Opcode::PHA => Ok(spec_push_stack(c, c.a)),
        Opcode::PHP => Ok(spec_push_stack(c, c.p | 0x30)),
        Opcode::PLA => {
            let v = spec_pop_value(c);
            Ok(CpuView { a: v, p: spec_zn(c.p, v), ..spec_pop_stack(c) })
        },
        Opcode::PLP => Ok(CpuView { p: spec_pop_value(c) & 0xCF, ..spec_pop_stack(c) }),
        Opcode::RTI => {
            let p2 = spec_pop_value(c) & 0xCF;
            let c1 = spec_pop_stack(c);
            let lo = spec_pop_value(c1);
            let c2 = spec_pop_stack(c1);
            let hi = spec_pop_value(c2);
            let c3 = spec_pop_stack(c2);
            Ok(CpuView { pc: lo_hi(lo, hi), p: p2, ..c3 })
        },
        Opcode::RTS => {
            let lo = spec_pop_value(c);
            let c1 = spec_pop_stack(c);
            let hi = spec_pop_value(c1);
            let c2 = spec_pop_stack(c1);
            Ok(CpuView { pc: ((lo + hi * 0x100 + 1) % 0x10000) as u16, ..c2 })
        },
        Opcode::STA => match spec_write(c.ram, addr, c.a) {
            Ok(ram) => Ok(CpuView { ram, ..c }),
            Err(e) => Err(e),
        },
        Opcode::STX => match spec_write(c.ram, addr, c.x) {
            Ok(ram) => Ok(CpuView { ram, ..c }),
            Err(e) => Err(e),
        },
        Opcode::STY => match spec_write(c.ram, addr, c.y) {
            Ok(ram) => Ok(CpuView { ram, ..c }),
            Err(e) => Err(e),
        },
        Opcode::TAX => Ok(CpuView { x: c.a, p: spec_zn(c.p, c.a), ..c }),
        Opcode::TAY => Ok(CpuView { y: c.a, p: spec_zn(c.p, c.a), ..c }),
        Opcode::TSX => Ok(CpuView { x: c.sp, p: spec_zn(c.p, c.sp), ..c }),
        Opcode::TXA => Ok(CpuView { a: c.x, p: spec_zn(c.p, c.x), ..c }),
        Opcode::TXS => Ok(CpuView { sp: c.x, ..c }),
        Opcode::TYA => Ok(CpuView { a: c.y, p: spec_zn(c.p, c.y), ..c }),
    }
}

/// One decoded instruction applied to the machine `c`, whose PC points at
/// the first operand byte: the addressing mode is resolved (advancing PC
/// past the operands), then the operation executed. On any failure the
/// machine is unchanged.
pub open spec fn spec_execute(c: CpuView, instr: Instruction) -> Result<CpuView, EmuError> {
    match spec_resolve(c, instr.1) {
        Err(e) => Err(e),
        Ok(t) => spec_exec_op(CpuView { pc: t.0, ..c }, instr.0, instr.1, t.1, t.2),
    }
}

/// One full fetch-decode-execute step from the machine `c`: the opcode is
/// fetched at PC, PC advances past it, the byte is decoded and the
/// instruction executed. On any failure the machine is unchanged.
pub open spec fn spec_step(c: CpuView) -> Result<CpuView, EmuError> {
    match spec_read(c.ram, c.pc) {
        Err(e) => Err(e),
        Ok(byte) => match spec_decode(byte) {
            None => Err(EmuError::UnsupportedOpcode(byte)),
            Some(instr) => spec_execute(CpuView { pc: pc_plus(c.pc, 1), ..c }, instr),
        },
    }
}

/// BIT sets Negative and Overflow from bits 7 and 6 of the operand alone,
/// whatever the accumulator holds, and Zero from whether `A & operand`
/// vanishes — the 6502 quirk, for every accumulator and operand value.
pub proof fn lemma_bit_flags_from_operand(c: CpuView, mode: AddrMode, addr: u16, val: u8)
    ensures
        (spec_exec_op(c, Opcode::BIT, mode, addr, val) matches Ok(c2)
            && spec_flag_set(c2.p, Flag::Negative) == (val & 0x80 == 0x80)
            && spec_flag_set(c2.p, Flag::Overflow) == (val & 0x40 == 0x40)
            && spec_flag_set(c2.p, Flag::Zero) == (c.a & val == 0)),
{
    let p1 = spec_set_flag(c.p, Flag::Zero, c.a & val == 0);
    let p2 = spec_set_flag(p1, Flag::Overflow, val & 0x40 == 0x40);
    crate::cpu::lemma_flag_set_get(p2, Flag::Negative, Flag::Negative, val & 0x80 == 0x80);
    crate::cpu::lemma_flag_set_get(p2, Flag::Negative, Flag::Overflow, val & 0x80 == 0x80);
    crate::cpu::lemma_flag_set_get(p1, Flag::Overflow, Flag::Overflow, val & 0x40 == 0x40);
    crate::cpu::lemma_flag_set_get(p2, Flag::Negative, Flag::Zero, val & 0x80 == 0x80);
    crate::cpu::lemma_flag_set_get(p1, Flag::Overflow, Flag::Zero, val & 0x40 == 0x40);
    crate::cpu::lemma_flag_set_get(c.p, Flag::Zero, Flag::Zero, c.a & val == 0);
}

/// A branch that is not taken leaves PC exactly past the two-byte branch
/// instruction; a branch that is taken adds the signed relative offset to
/// that same base, wrapping at 16 bits — forward and backward offsets
/// alike. `c` is the machine about to fetch the branch opcode at PC.
#[verifier::rlimit(100)]
pub proof fn lemma_step_branch(c: CpuView, op: Opcode)
    requires
        c.wf(),
        c.pc + 1 < RAM_SIZE,
        spec_decode(c.ram[c.pc as int]) == Some(Instruction(op, AddrMode::REL, 2)),
        op == Opcode::BCC || op == Opcode::BCS || op == Opcode::BEQ || op == Opcode::BNE || op
            == Opcode::BMI || op == Opcode::BPL || op == Opcode::BVC || op == Opcode::BVS,
    ensures
        ({
            let off = c.ram[c.pc + 1];
            let after = ((c.pc + 2) % 0x10000) as u16;
            spec_step(c) == Ok::<CpuView, EmuError>(
                if spec_branch_cond(c.p, op) {
                    CpuView { pc: branch_target(after, off), ..c }
                } else {
                    CpuView { pc: after, ..c }
                },
            )
        }),
{
    let off = c.ram[c.pc + 1];
    let after = ((c.pc + 2) % 0x10000) as u16;
    let c1 = CpuView { pc: pc_plus(c.pc, 1), ..c };
    assert(spec_resolve(c1, AddrMode::REL) == Ok::<(u16, u16, u8), EmuError>((after, 0, off)));
    let c2 = CpuView { pc: after, ..c1 };
    if spec_branch_cond(c.p, op) {
        assert(spec_exec_op(c2, op, AddrMode::REL, 0, off) == Ok::<CpuView, EmuError>(
            CpuView { pc: branch_target(after, off), ..c },
        ));
    } else {
        assert(spec_exec_op(c2, op, AddrMode::REL, 0, off) == Ok::<CpuView, EmuError>(
            CpuView { pc: after, ..c },
        ));
    }
}

/// `(a + b) mod 2^16`, as executable code.
fn add16(a: u16, b: u16) -> (r: u16)
    ensures
        r as int == (a + b) % 0x10000,
{
    (((a as u32) + (b as u32)) % 0x10000) as u16
}

/// `(v + 1) mod 256`, as executable code.
fn inc8(v: u8) -> (r: u8)
    ensures
        r as int == (v + 1) % 0x100,
{
    if v == 0xFF {
        0
    } else {
        v + 1
    }
}

/// `(v - 1) mod 256`, as executable code.
fn dec8(v: u8) -> (r: u8)
    ensures
        r as int == (v + 0xFF) % 0x100,
{
    if v == 0 {
        0xFF
    } else {
        v - 1
    }
}

/// The branch destination, as executable code.
fn branch_dest(pc: u16, off: u8) -> (r: u16)
    ensures
        r == branch_target(pc, off),
{
    if off < 0x80 {
        (((pc as u32) + (off as u32)) % 0x10000) as u16
    } else {
        (((pc as u32) + (off as u32) + 0xFF00) % 0x10000) as u16
    }
}

impl Cpu {
    /// Sets Zero and Negative from the byte `r`, as nearly every
    /// register-writing operation does.
    fn set_zn(&mut self, r: u8)
        ensures
            final(self)@ == (CpuView { p: spec_zn(old(self)@.p, r), ..old(self)@ }),
    {
        self.set_flag(Flag::Zero, r == 0);
        self.set_flag(Flag::Negative, r & 0x80 == 0x80);
    }

    /// The add-with-carry rule shared by ADC and SBC (SBC adds the
    /// one's complement of its operand).
    fn do_adc(&mut self, val: u8)
        ensures
            final(self)@ == spec_adc(old(self)@, val),
    {
        let carry: u16 = if self.get_flag(Flag::Carry) {
            1
        } else {
            0
        };
        let sum: u16 = (self.a as u16) + (val as u16) + carry;
        let r8: u8 = (sum % 0x100) as u8;
        let a0 = self.a;
        self.set_flag(Flag::Carry, sum > 0xFF);
        self.set_flag(Flag::Zero, r8 == 0);
        self.set_flag(Flag::Overflow, (a0 ^ r8) & (val ^ r8) & 0x80 == 0x80);
        self.set_flag(Flag::Negative, r8 & 0x80 == 0x80);
        self.a = r8;
    }

    /// The compare rule shared by CMP, CPX and CPY.
    fn do_compare(&mut self, reg: u8, val: u8)
        ensures
            final(self)@ == (CpuView { p: spec_compare_p(old(self)@.p, reg, val), ..old(self)@ }),
    {
        let diff: u8 = ((((reg as u16) + 0x100) - (val as u16)) % 0x100) as u8;
        self.set_flag(Flag::Carry, reg >= val);
        self.set_flag(Flag::Zero, reg == val);
        self.set_flag(Flag::Negative, diff & 0x80 == 0x80);
    }

    /// Writes `byte` at `addr`, or, when `addr` is unmapped, restores PC
    /// to `pc0` and reports the failure, leaving everything else as it was.
    fn store_byte(&mut self, addr: u16, byte: u8, pc0: u16) -> (r: Result<(), EmuError>)
        requires
            old(self).wf(),
        ensures
            final(self).wf(),
            (match spec_write(old(self)@.ram, addr, byte) {
                Ok(ram) => r == Ok::<(), EmuError>(()) && final(self)@ == (CpuView {
                    ram,
                    ..old(self)@
                }),
                Err(e) => r == Err::<(), EmuError>(e) && final(self)@ == (CpuView {
                    pc: pc0,
                    ..old(self)@
                }),
            }),
    {
        if (addr as usize) < RAM_SIZE {
            match self.bus.write_byte(addr, byte) {
                Ok(()) => {},
                Err(_) => {
                    proof {
                        assert(false);
                    }
                },
            }
            Ok(())
        } else {
            self.pc = pc0;
            Err(EmuError::OutOfRange(addr))
        }
    }

    /// Applies the semantics of one decoded operation: resolves the
    /// addressing mode (consuming operand bytes and advancing PC), then
    /// mutates registers, flags and memory exactly as [`spec_execute`]
    /// describes. On any out-of-range bus access the error is returned
    /// and the machine is left exactly as it was — no instruction is
    /// ever half-applied.
    pub fn execute_instruction(&mut self, instr: Instruction) -> (r: Result<(), EmuError>)
        requires
            old(self).wf(),
        ensures
            final(self).wf(),
            (match spec_execute(old(self)@, instr) {
                Ok(c) => r == Ok::<(), EmuError>(()) && final(self)@ == c,
                Err(e) => r == Err::<(), EmuError>(e) && final(self)@ == old(self)@,
            }),
    {
        let Instruction(opcode, mode, _cycles) = instr;
        let pc0 = self.pc;
        let (addr, val) = match self.get_args(&mode) {
            Ok(t) => t,
            Err(e) => {
                return Err(e);
            },
        };
        match opcode {
            Opcode::ADC => {
                self.do_adc(val);
                Ok(())
            },
            Opcode::SBC => {
                self.do_adc(val ^ 0xFF);
                Ok(())
            },
            Opcode::AND => {
                let r = self.a & val;
                self.set_zn(r);
                self.a = r;
                Ok(())
            },
            Opcode::ORA => {
                let r = self.a | val;
                self.set_zn(r);
                self.a = r;
                Ok(())
            },
            Opcode::EOR => {
                let r = self.a ^ val;
                self.set_zn(r);
                self.a = r;
                Ok(())
            },
            Opcode::ASL | Opcode::LSR | Opcode::ROL | Opcode::ROR => {
                let carry_in = self.get_flag(Flag::Carry);
                let res: u8 = match opcode {
                    Opcode::ASL => val << 1,
                    Opcode::LSR => val >> 1,
                    Opcode::ROL => (val << 1) | (if carry_in {
                        1
                    } else {
                        0
                    }),
                    _ => (val >> 1) | (if carry_in {
                        0x80
                    } else {
                        0
                    }),
                };
                let cout: bool = match opcode {
                    Opcode::ASL | Opcode::ROL => val & 0x80 == 0x80,
                    _ => val & 0x01 == 0x01,
                };
                match mode {
                    AddrMode::ACC => {
                        self.set_flag(Flag::Carry, cout);
                        self.set_zn(res);
                        self.a = res;
                        Ok(())
                    },
                    _ => {
                        if (addr as usize) < RAM_SIZE {
                            self.set_flag(Flag::Carry, cout);
                            self.set_zn(res);
                            match self.bus.write_byte(addr, res) {
                                Ok(()) => {},
                                Err(_) => {
                                    proof {
                                        assert(false);
                                    }
                                },
                            }
                            Ok(())
                        } else {
                            self.pc = pc0;
                            Err(EmuError::OutOfRange(addr))
                        }
                    },
                }
            },
            Opcode::BCC | Opcode::BCS | Opcode::BEQ | Opcode::BNE | Opcode::BMI | Opcode::BPL
                | Opcode::BVC | Opcode::BVS => {
                let cond = match opcode {
                    Opcode::BCC => !self.get_flag(Flag::Carry),
                    Opcode::BCS => self.get_flag(Flag::Carry),
                    Opcode::BEQ => self.get_flag(Flag::Zero),
                    Opcode::BNE => !self.get_flag(Flag::Zero),
                    Opcode::BMI => self.get_flag(Flag::Negative),
                    Opcode::BPL => !self.get_flag(Flag::Negative),
                    Opcode::BVC => !self.get_flag(Flag::Overflow),
                    _ => self.get_flag(Flag::Overflow),
                };
                if cond {
                    self.pc = branch_dest(self.pc, val);
                }
                Ok(())
            },
            Opcode::BIT => {
                let a0 = self.a;
                self.set_flag(Flag::Zero, a0 & val == 0);
                self.set_flag(Flag::Overflow, val & 0x40 == 0x40);
                self.set_flag(Flag::Negative, val & 0x80 == 0x80);
                Ok(())
            },
            Opcode::BRK => {
                let lo = match self.bus.read_byte(0xFFFE) {
                    Ok(b) => b,
                    Err(e) => {
                        self.pc = pc0;
                        return Err(e);
                    },
                };
                let hi = match self.bus.read_byte(0xFFFF) {
                    Ok(b) => b,
                    Err(e) => {
                        self.pc = pc0;
                        return Err(e);
                    },
                };
                let ret = add16(self.pc, 1);
                let p0 = self.p;
                self.push_stack((ret / 0x100) as u8);
                self.push_stack((ret % 0x100) as u8);
                self.push_stack(p0 | 0x30);
                self.set_flag(Flag::InterruptDisable, true);
                self.pc = (lo as u16) + (hi as u16) * 0x100;
                Ok(())
            },
            Opcode::CLC => {
                self.set_flag(Flag::Carry, false);
                Ok(())
            },
            Opcode::CLD => {
                self.set_flag(Flag::Decimal, false);
                Ok(())
            },
            Opcode::CLI => {
                self.set_flag(Flag::InterruptDisable, false);
                Ok(())
            },
            Opcode::CLV => {
                self.set_flag(Flag::Overflow, false);
                Ok(())
            },
            Opcode::SEC => {
                self.set_flag(Flag::Carry, true);
                Ok(())
            },
            Opcode::SED => {
                self.set_flag(Flag::Decimal, true);
                Ok(())
            },
            Opcode::SEI => {
                self.set_flag(Flag::InterruptDisable, true);
                Ok(())
            },
            Opcode::CMP => {
                let r0 = self.a;
                self.do_compare(r0, val);
                Ok(())
            },
            Opcode::CPX => {
                let r0 = self.x;
                self.do_compare(r0, val);
                Ok(())
            },
            Opcode::CPY => {
                let r0 = self.y;
                self.do_compare(r0, val);
                Ok(())
            },
            Opcode::DEC | Opcode::INC => {
                let res = if matches!(opcode, Opcode::INC) {
                    inc8(val)
                } else {
                    dec8(val)
                };
                match mode {
                    AddrMode::ACC => {
                        self.set_zn(res);
                        self.a = res;
                        Ok(())
                    },
                    _ => {
                        if (addr as usize) < RAM_SIZE {
                            self.set_zn(res);
                            match self.bus.write_byte(addr, res) {
                                Ok(()) => {},
                                Err(_) => {
                                    proof {
                                        assert(false);
                                    }
                                },
                            }
                            Ok(())
                        } else {
                            self.pc = pc0;
                            Err(EmuError::OutOfRange(addr))
                        }
                    },
                }
            },
            Opcode::DEX => {
                let r = dec8(self.x);
                self.set_zn(r);
                self.x = r;
                Ok(())
            },
            Opcode::DEY => {
                let r = dec8(self.y);
                self.set_zn(r);
                self.y = r;
                Ok(())
            },
            Opcode::INX => {
                let r = inc8(self.x);
                self.set_zn(r);
                self.x = r;
                Ok(())
            },
            Opcode::INY => {
                let r = inc8(self.y);
                self.set_zn(r);
                self.y = r;
                Ok(())
            },
            Opcode::JMP => {
                self.pc = addr;
                Ok(())
            },
            Opcode::JSR => {
                let ret = add16(self.pc, 0xFFFF);
                self.push_stack((ret / 0x100) as u8);
                self.push_stack((ret % 0x100) as u8);
                self.pc = addr;
                Ok(())
            },
            Opcode::LDA => {
                self.set_zn(val);
                self.a = val;
                Ok(())
            },
            Opcode::LDX => {
                self.set_zn(val);
                self.x = val;
                Ok(())
            },
            Opcode::LDY => {
                self.set_zn(val);
                self.y = val;
                Ok(())
            },
            Opcode::NOP => Ok(()),
            Opcode::PHA => {
                let a0 = self.a;
                self.push_stack(a0);
                Ok(())
            },
            Opcode::PHP => {
                let p0 = self.p;
                self.push_stack(p0 | 0x30);
                Ok(())
            },
            Opcode::PLA => {
                let v = self.pop_stack();
                self.set_zn(v);
                self.a = v;
                Ok(())
            },
            Opcode::PLP => {
                let v = self.pop_stack();
                self.p = v & 0xCF;
                Ok(())
            },
            Opcode::RTI => {
                let v = self.pop_stack();
                let lo = self.pop_stack();
                let hi = self.pop_stack();
                self.p = v & 0xCF;
                self.pc = (lo as u16) + (hi as u16) * 0x100;
                Ok(())
            },
            Opcode::RTS => {
                let lo = self.pop_stack();
                let hi = self.pop_stack();
                self.pc = add16((lo as u16) + (hi as u16) * 0x100, 1);
                Ok(())
            },
            Opcode::STA => {
                let b = self.a;
                self.store_byte(addr, b, pc0)
            },
            Opcode::STX => {
                let b = self.x;
                self.store_byte(addr, b, pc0)
            },
            Opcode::STY => {
                let b = self.y;
                self.store_byte(addr, b, pc0)
            },
            Opcode::TAX => {
                let r = self.a;
                self.set_zn(r);
                self.x = r;
                Ok(())
            },
            Opcode::TAY => {
                let r = self.a;
                self.set_zn(r);
                self.y = r;
                Ok(())
            },
            Opcode::TSX => {
                let r = self.sp;
                self.set_zn(r);
                self.x = r;
                Ok(())
            },
            Opcode::TXA => {
                let r = self.x;
                self.set_zn(r);
                self.a = r;
                Ok(())
            },
            Opcode::TXS => {
                self.sp = self.x;
                Ok(())
            },
            Opcode::TYA => {
                let r = self.y;
                self.set_zn(r);
                self.a = r;
                Ok(())
            },
        }
    }

    /// One full step of the fetch-decode-execute loop, the sole entry
    /// point a driving host needs: fetch the opcode at PC, advance PC,
    /// decode, resolve the addressing mode and execute. On any failure
    /// (unmapped bus access or unsupported opcode) the error is surfaced
    /// and the machine is left exactly as it was.
    pub fn step(&mut self) -> (r: Result<(), EmuError>)
        requires
            old(self).wf(),
        ensures
            final(self).wf(),
            (match spec_step(old(self)@) {
                Ok(c) => r == Ok::<(), EmuError>(()) && final(self)@ == c,
                Err(e) => r == Err::<(), EmuError>(e) && final(self)@ == old(self)@,
            }),
    {
        let byte = match self.bus.read_byte(self.pc) {
            Ok(b) => b,
            Err(e) => {
                return Err(e);
            },
        };
        let instr = match Instruction::from_byte(byte) {
            Ok(i) => i,
            Err(e) => {
                return Err(e);
            },
        };
        let pc0 = self.pc;
        self.pc = add16(pc0, 1);
        match self.execute_instruction(instr) {
            Ok(()) => Ok(()),
            Err(e) => {
                self.pc = pc0;
                Err(e)
            },
        }
    }
}

} // verus!
