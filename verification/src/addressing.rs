use vstd::prelude::*;

use crate::bus::spec_read;
use crate::cpu::Cpu;
use crate::cpu::CpuView;
use crate::errors::EmuError;
use crate::instruction::AddrMode;

verus! {

/// The program counter advanced by `n` bytes, wrapping at 16 bits.
pub open spec fn pc_plus(pc: u16, n: u16) -> u16 {
    ((pc + n) % 0x10000) as u16
}

/// A 16-bit value assembled little-endian: `low | (high << 8)`.
pub open spec fn lo_hi(lo: u8, hi: u8) -> u16 {
    (lo + hi * 0x100) as u16
}

/// Zero-page index addition: wraps at 8 bits, confined to page zero.
pub open spec fn zp_index(base: u8, index: u8) -> u16 {
    ((base + index) % 0x100) as u16
}

/// Absolute index addition: wraps at 16 bits.
pub open spec fn abs_index(base: u16, index: u8) -> u16 {
    ((base + index) % 0x10000) as u16
}

/// What resolving an addressing mode yields: the program counter advanced
/// past the consumed operand bytes, the effective address (zero where the
/// mode has none) and the operand value (zero where the mode has none).
/// Any bus access outside the mapped region fails with `OutOfRange` instead.
pub open spec fn spec_resolve(c: CpuView, mode: AddrMode) -> Result<(u16, u16, u8), EmuError> {
    match mode {
        AddrMode::IMP => Ok((c.pc, 0, 0)),
        AddrMode::ACC => Ok((c.pc, 0, c.a)),
        AddrMode::IMM => match spec_read(c.ram, c.pc) {
            Err(e) => Err(e),
            Ok(b) => Ok((pc_plus(c.pc, 1), 0, b)),
        },
        AddrMode::ZP => match spec_read(c.ram, c.pc) {
            Err(e) => Err(e),
            Ok(b) => match spec_read(c.ram, b as u16) {
                Err(e) => Err(e),
                Ok(v) => Ok((pc_plus(c.pc, 1), b as u16, v)),
            },
        },
        AddrMode::ZPX => match spec_read(c.ram, c.pc) {
            Err(e) => Err(e),
            Ok(b) => match spec_read(c.ram, zp_index(b, c.x)) {
                Err(e) => Err(e),
                Ok(v) => Ok((pc_plus(c.pc, 1), zp_index(b, c.x), v)),
            },
        },
        AddrMode::ZPY => match spec_read(c.ram, c.pc) {
            Err(e) => Err(e),
            Ok(b) => match spec_read(c.ram, zp_index(b, c.y)) {
                Err(e) => Err(e),
                Ok(v) => Ok((pc_plus(c.pc, 1), zp_index(b, c.y), v)),
            },
        },
        AddrMode::REL => match spec_read(c.ram, c.pc) {
            Err(e) => Err(e),
            Ok(b) => Ok((pc_plus(c.pc, 1), 0, b)),
        },
        AddrMode::ABS => match spec_read(c.ram, c.pc) {
            Err(e) => Err(e),
            Ok(lo) => match spec_read(c.ram, pc_plus(c.pc, 1)) {
                Err(e) => Err(e),
                Ok(hi) => match spec_read(c.ram, lo_hi(lo, hi)) {
                    Err(e) => Err(e),
                    Ok(v) => Ok((pc_plus(c.pc, 2), lo_hi(lo, hi), v)),
                },
            },
        },
        AddrMode::ABX => match spec_read(c.ram, c.pc) {
            Err(e) => Err(e),
            Ok(lo) => match spec_read(c.ram, pc_plus(c.pc, 1)) {
                Err(e) => Err(e),
                Ok(hi) => match spec_read(c.ram, abs_index(lo_hi(lo, hi), c.x)) {
                    Err(e) => Err(e),
                    Ok(v) => Ok((pc_plus(c.pc, 2), abs_index(lo_hi(lo, hi), c.x), v)),
                },
            },
        },
        AddrMode::ABY => match spec_read(c.ram, c.pc) {
            Err(e) => Err(e),
            Ok(lo) => match spec_read(c.ram, pc_plus(c.pc, 1)) {
                Err(e) => Err(e),
                Ok(hi) => match spec_read(c.ram, abs_index(lo_hi(lo, hi), c.y)) {
                    Err(e) => Err(e),
                    Ok(v) => Ok((pc_plus(c.pc, 2), abs_index(lo_hi(lo, hi), c.y), v)),
                },
            },
        },
        AddrMode::IND => match spec_read(c.ram, c.pc) {
            Err(e) => Err(e),
            Ok(lo) => match spec_read(c.ram, pc_plus(c.pc, 1)) {
                Err(e) => Err(e),
                Ok(hi) => {
                    let ptr = lo_hi(lo, hi);
                    let hi_ptr = ind_high_ptr(lo, hi);
                    match spec_read(c.ram, ptr) {
                        Err(e) => Err(e),
                        Ok(t_lo) => match spec_read(c.ram, hi_ptr) {
                            Err(e) => Err(e),
                            Ok(t_hi) => Ok((pc_plus(c.pc, 2), lo_hi(t_lo, t_hi), 0)),
                        },
                    }
                },
            },
        },
        AddrMode::IDX => match spec_read(c.ram, c.pc) {
            Err(e) => Err(e),
            Ok(b) => {
                let ptr = zp_index(b, c.x);
                match spec_read(c.ram, ptr) {
                    Err(e) => Err(e),
                    Ok(lo) => match spec_read(c.ram, zp_index(b, ((c.x + 1) % 0x100) as u8)) {
                        Err(e) => Err(e),
                        Ok(hi) => match spec_read(c.ram, lo_hi(lo, hi)) {
                            Err(e) => Err(e),
                            Ok(v) => Ok((pc_plus(c.pc, 1), lo_hi(lo, hi), v)),
                        },
                    },
                }
            },
        },
        AddrMode::IDY => match spec_read(c.ram, c.pc) {
            Err(e) => Err(e),
            Ok(b) => match spec_read(c.ram, b as u16) {
                Err(e) => Err(e),
                Ok(lo) => match spec_read(c.ram, zp_index(b, 1)) {
                    Err(e) => Err(e),
                    Ok(hi) => match spec_read(c.ram, abs_index(lo_hi(lo, hi), c.y)) {
                        Err(e) => Err(e),
                        Ok(v) => Ok((pc_plus(c.pc, 1), abs_index(lo_hi(lo, hi), c.y), v)),
                    },
                },
            },
        },
    }
}

/// Where the high byte of an indirect pointer is read: the next address,
/// except that a pointer whose low byte is 0xFF wraps within its own page
/// (the documented 6502 page-boundary quirk).
pub open spec fn ind_high_ptr(lo: u8, hi: u8) -> u16 {
    if lo == 0xFF {
        (hi * 0x100) as u16
    } else {
        (lo + 1 + hi * 0x100) as u16
    }
}

/// `pc + n` at 16 bits, as executable code.
fn pc_add(pc: u16, n: u16) -> (r: u16)
    ensures
        r == pc_plus(pc, n),
{
    (((pc as u32) + (n as u32)) % 0x10000) as u16
}

/// `(base + index) mod 256`, as executable code.
fn zp_add(base: u8, index: u8) -> (r: u16)
    ensures
        r == zp_index(base, index),
{
    ((base as u16) + (index as u16)) % 0x100
}

impl Cpu {
    /// Resolves one addressing mode: consumes the operand bytes that
    /// follow the opcode, advances PC past them, and returns the effective
    /// address and operand value per the mode's rule. The resolver never
    /// writes; on any out-of-range bus access it fails with `OutOfRange`
    /// and leaves the whole machine state unchanged.
    pub fn get_args(&mut self, mode: &AddrMode) -> (r: Result<(u16, u8), EmuError>)
        requires
            old(self).wf(),
        ensures
            final(self).wf(),
            (match spec_resolve(old(self)@, *mode) {
                Ok(t) => r == Ok::<(u16, u8), EmuError>((t.1, t.2)) && final(self)@ == (CpuView {
                    pc: t.0,
                    ..old(self)@
                }),
                Err(e) => r == Err::<(u16, u8), EmuError>(e) && final(self)@ == old(self)@,
            }),
    {
        match mode {
            AddrMode::IMP => Ok((0, 0)),
            AddrMode::ACC => Ok((0, self.a)),
            AddrMode::IMM => {
                let b = match self.bus.read_byte(self.pc) {
                    Ok(b) => b,
                    Err(e) => {
                        return Err(e);
                    },
                };
                self.pc = pc_add(self.pc, 1);
                Ok((0, b))
            },
            AddrMode::ZP => {
                let b = match self.bus.read_byte(self.pc) {
                    Ok(b) => b,
                    Err(e) => {
                        return Err(e);
                    },
                };
                let addr = b as u16;
                let v = match self.bus.read_byte(addr) {
                    Ok(v) => v,
                    Err(e) => {
                        return Err(e);
                    },
                };
                self.pc = pc_add(self.pc, 1);
                Ok((addr, v))
            },
            AddrMode::ZPX => {
                let b = match self.bus.read_byte(self.pc) {
                    Ok(b) => b,
                    Err(e) => {
                        return Err(e);
                    },
                };
                let addr = zp_add(b, self.x);
                let v = match self.bus.read_byte(addr) {
                    Ok(v) => v,
                    Err(e) => {
                        return Err(e);
                    },
                };
                self.pc = pc_add(self.pc, 1);
                Ok((addr, v))
            },
            AddrMode::ZPY => {
                let b = match self.bus.read_byte(self.pc) {
                    Ok(b) => b,
                    Err(e) => {
                        return Err(e);
                    },
                };
                let addr = zp_add(b, self.y);
                let v = match self.bus.read_byte(addr) {
                    Ok(v) => v,
                    Err(e) => {
                        return Err(e);
                    },
                };
                self.pc = pc_add(self.pc, 1);
                Ok((addr, v))
            },
            AddrMode::REL => {
                let b = match self.bus.read_byte(self.pc) {
                    Ok(b) => b,
                    Err(e) => {
                        return Err(e);
                    },
                };
                self.pc = pc_add(self.pc, 1);
                Ok((0, b))
            },
            AddrMode::ABS => {
                let lo = match self.bus.read_byte(self.pc) {
                    Ok(b) => b,
                    Err(e) => {
                        return Err(e);
                    },
                };
                let hi = match self.bus.read_byte(pc_add(self.pc, 1)) {
                    Ok(b) => b,
                    Err(e) => {
                        return Err(e);
                    },
                };
                let addr: u16 = (lo as u16) + (hi as u16) * 0x100;
                let v = match self.bus.read_byte(addr) {
                    Ok(v) => v,
                    Err(e) => {
                        return Err(e);
                    },
                };
                self.pc = pc_add(self.pc, 2);
                Ok((addr, v))
            },
            AddrMode::ABX => {
                let lo = match self.bus.read_byte(self.pc) {
                    Ok(b) => b,
                    Err(e) => {
                        return Err(e);
                    },
                };
                let hi = match self.bus.read_byte(pc_add(self.pc, 1)) {
                    Ok(b) => b,
                    Err(e) => {
                        return Err(e);
                    },
                };
                let base: u16 = (lo as u16) + (hi as u16) * 0x100;
                let addr = pc_add(base, self.x as u16);
                let v = match self.bus.read_byte(addr) {
                    Ok(v) => v,
                    Err(e) => {
                        return Err(e);
                    },
                };
                self.pc = pc_add(self.pc, 2);
                Ok((addr, v))
            },
            AddrMode::ABY => {
                let lo = match self.bus.read_byte(self.pc) {
                    Ok(b) => b,
                    Err(e) => {
                        return Err(e);
                    },
                };
                let hi = match self.bus.read_byte(pc_add(self.pc, 1)) {
                    Ok(b) => b,
                    Err(e) => {
                        return Err(e);
                    },
                };
                let base: u16 = (lo as u16) + (hi as u16) * 0x100;
                let addr = pc_add(base, self.y as u16);
                let v = match self.bus.read_byte(addr) {
                    Ok(v) => v,
                    Err(e) => {
                        return Err(e);
                    },
                };
                self.pc = pc_add(self.pc, 2);
                Ok((addr, v))
            },
            AddrMode::IND => {
                let lo = match self.bus.read_byte(self.pc) {
                    Ok(b) => b,
                    Err(e) => {
                        return Err(e);
                    },
                };
                let hi = match self.bus.read_byte(pc_add(self.pc, 1)) {
                    Ok(b) => b,
                    Err(e) => {
                        return Err(e);
                    },
                };
                let ptr: u16 = (lo as u16) + (hi as u16) * 0x100;
                let hi_ptr: u16 = if lo == 0xFF {
                    (hi as u16) * 0x100
                } else {
                    (lo as u16) + 1 + (hi as u16) * 0x100
                };
                let t_lo = match self.bus.read_byte(ptr) {
                    Ok(b) => b,
                    Err(e) => {
                        return Err(e);
                    },
                };
                let t_hi = match self.bus.read_byte(hi_ptr) {
                    Ok(b) => b,
                    Err(e) => {
                        return Err(e);
                    },
                };
                let addr: u16 = (t_lo as u16) + (t_hi as u16) * 0x100;
                self.pc = pc_add(self.pc, 2);
                Ok((addr, 0))
            },
            AddrMode::IDX => {
                let b = match self.bus.read_byte(self.pc) {
                    Ok(b) => b,
                    Err(e) => {
                        return Err(e);
                    },
                };
                let ptr = zp_add(b, self.x);
                let lo = match self.bus.read_byte(ptr) {
                    Ok(v) => v,
                    Err(e) => {
                        return Err(e);
                    },
                };
                let x1: u8 = if self.x == 0xFF {
                    0
                } else {
                    self.x + 1
                };
                let hi = match self.bus.read_byte(zp_add(b, x1)) {
                    Ok(v) => v,
                    Err(e) => {
                        return Err(e);
                    },
                };
                let addr: u16 = (lo as u16) + (hi as u16) * 0x100;
                let v = match self.bus.read_byte(addr) {
                    Ok(v) => v,
                    Err(e) => {
                        return Err(e);
                    },
                };
                self.pc = pc_add(self.pc, 1);
                Ok((addr, v))
            },
            AddrMode::IDY => {
                let b = match self.bus.read_byte(self.pc) {
                    Ok(b) => b,
                    Err(e) => {
                        return Err(e);
                    },
                };
                let lo = match self.bus.read_byte(b as u16) {
                    Ok(v) => v,
                    Err(e) => {
                        return Err(e);
                    },
                };
                let hi = match self.bus.read_byte(zp_add(b, 1)) {
                    Ok(v) => v,
                    Err(e) => {
                        return Err(e);
                    },
                };
                let base: u16 = (lo as u16) + (hi as u16) * 0x100;
                let addr = pc_add(base, self.y as u16);
                let v = match self.bus.read_byte(addr) {
                    Ok(v) => v,
                    Err(e) => {
                        return Err(e);
                    },
                };
                self.pc = pc_add(self.pc, 1);
                Ok((addr, v))
            },
        }
    }
}

} // verus!
