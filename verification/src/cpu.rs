use vstd::prelude::*;

use crate::bus::Bus;
use crate::bus::RAM_SIZE;

verus! {

/// One bit of the packed status register `P`.
///
/// Bit positions follow the 6502 layout: Carry is bit 0, Zero bit 1,
/// InterruptDisable bit 2, Decimal bit 3, Overflow bit 6 and Negative
/// bit 7. Bits 4 and 5 are unused and kept clear in the stored register.
#[derive(Clone, Copy, Debug, PartialEq, Eq, Structural)]
pub enum Flag {
    Carry,
    Zero,
    InterruptDisable,
    Decimal,
    Overflow,
    Negative,
}

/// The bit mask a flag occupies inside the packed status register.
pub open spec fn flag_mask(flag: Flag) -> u8 {
    match flag {
        Flag::Carry => 0x01,
        Flag::Zero => 0x02,
        Flag::InterruptDisable => 0x04,
        Flag::Decimal => 0x08,
        Flag::Overflow => 0x40,
        Flag::Negative => 0x80,
    }
}

/// Whether `flag` is set in the packed status register `p`.
pub open spec fn spec_flag_set(p: u8, flag: Flag) -> bool {
    p & flag_mask(flag) != 0
}

/// The packed status register `p` with `flag` forced to `value`.
pub open spec fn spec_set_flag(p: u8, flag: Flag, value: bool) -> u8 {
    if value {
        p | flag_mask(flag)
    } else {
        p & !flag_mask(flag)
    }
}

/// The mathematical model of the whole machine: the six registers plus the
/// mapped RAM. Every contract of the core speaks of values of this type.
#[verifier::ext_equal]
pub struct CpuView {
    pub a: u8,
    pub x: u8,
    pub y: u8,
    pub pc: u16,
    pub sp: u8,
    pub p: u8,
    pub ram: Seq<u8>,
}

impl CpuView {
    /// The RAM of a valid machine always spans exactly the mapped region.
    pub open spec fn wf(self) -> bool {
        self.ram.len() == RAM_SIZE
    }
}

/// The stack pointer after a push: decremented, wrapping modulo 256.
pub open spec fn sp_dec(sp: u8) -> u8 {
    if sp == 0 {
        0xFF
    } else {
        (sp - 1) as u8
    }
}

/// The stack pointer after a pop: incremented, wrapping modulo 256.
pub open spec fn sp_inc(sp: u8) -> u8 {
    if sp == 0xFF {
        0
    } else {
        (sp + 1) as u8
    }
}

/// The machine after pushing `value`: the byte lands at `0x0100 + SP` and
/// SP is decremented with 8-bit wraparound. Nothing else moves.
pub open spec fn spec_push_stack(c: CpuView, value: u8) -> CpuView {
    CpuView { sp: sp_dec(c.sp), ram: c.ram.update(0x100 + c.sp as int, value), ..c }
}

/// The machine after popping: SP is incremented first (with 8-bit
/// wraparound); the byte comes from `0x0100 + SP` at its new value.
pub open spec fn spec_pop_stack(c: CpuView) -> CpuView {
    CpuView { sp: sp_inc(c.sp), ..c }
}

/// The byte a pop returns, read at `0x0100 + SP` after the increment.
pub open spec fn spec_pop_value(c: CpuView) -> u8 {
    c.ram[0x100 + sp_inc(c.sp) as int]
}

/// The 6502 register file together with the bus it owns.
///
/// `A`, `X` and `Y` are the 8-bit accumulator and index registers; `PC`
/// always points at the next byte to fetch; `SP` addresses the stack page
/// `0x0100..=0x01FF` via `0x0100 + SP`.
pub struct Cpu {
    pub a: u8,
    pub x: u8,
    pub y: u8,
    pub pc: u16,
    pub sp: u8,
    pub p: u8,
    pub bus: Bus,
}

impl View for Cpu {
    type V = CpuView;

    open spec fn view(&self) -> CpuView {
        CpuView {
            a: self.a,
            x: self.x,
            y: self.y,
            pc: self.pc,
            sp: self.sp,
            p: self.p,
            ram: self.bus@,
        }
    }
}

impl Cpu {
    /// A valid processor sits on a bus mapping the whole RAM region.
    pub open spec fn wf(&self) -> bool {
        self@.wf()
    }

    /// A fresh processor: every register zeroed except SP, which starts at
    /// `0xFF` (empty descending stack at the top of page one), over zeroed RAM.
    pub fn new() -> (cpu: Cpu)
        ensures
            cpu.wf(),
            cpu@.a == 0 && cpu@.x == 0 && cpu@.y == 0 && cpu@.pc == 0,
            cpu@.sp == 0xFF && cpu@.p == 0,
            forall|i: int| 0 <= i < RAM_SIZE ==> cpu@.ram[i] == 0u8,
    {
        let bus = Bus::new();
        Cpu { a: 0, x: 0, y: 0, pc: 0, sp: 0xFF, p: 0, bus }
    }

    /// Read-only access to the stack pointer, for hosts and test harnesses.
    pub fn sp(&self) -> (r: u8)
        ensures
            r == self@.sp,
    {
        self.sp
    }

    /// Read-only access to the packed status register.
    pub fn status(&self) -> (r: u8)
        ensures
            r == self@.p,
    {
        self.p
    }

    /// Whether `flag` is currently set in the status register.
    pub fn get_flag(&self, flag: Flag) -> (r: bool)
        ensures
            r == spec_flag_set(self@.p, flag),
    {
        self.p & mask(flag) != 0
    }

    /// Forces `flag` to `value`, leaving every other bit of the status
    /// register and all other state unchanged.
    pub fn set_flag(&mut self, flag: Flag, value: bool)
        ensures
            final(self)@ == (CpuView { p: spec_set_flag(old(self)@.p, flag, value), ..old(self)@ }),
    {
        self.p = if value {
            self.p | mask(flag)
        } else {
            self.p & !mask(flag)
        };
    }

    /// Pushes `value` onto the stack: writes to `0x0100 + SP`, then
    /// decrements SP with 8-bit wraparound.
    pub fn push_stack(&mut self, value: u8)
        requires
            old(self).wf(),
        ensures
            final(self).wf(),
            final(self)@ == spec_push_stack(old(self)@, value),
    {
        let addr: u16 = 0x0100 + self.sp as u16;
        match self.bus.write_byte(addr, value) {
            Ok(()) => {},
            Err(_) => {
                // The stack page is always inside the mapped region.
                proof {
                    assert(false);
                }
            },
        }
        self.sp = if self.sp == 0 {
            0xFF
        } else {
            self.sp - 1
        };
    }

    /// Pops one byte: increments SP with 8-bit wraparound, then reads
    /// `0x0100 + SP` at its new value.
    pub fn pop_stack(&mut self) -> (r: u8)
        requires
            old(self).wf(),
        ensures
            final(self).wf(),
            final(self)@ == spec_pop_stack(old(self)@),
            r == spec_pop_value(old(self)@),
    {
        self.sp = if self.sp == 0xFF {
            0
        } else {
            self.sp + 1
        };
        let addr: u16 = 0x0100 + self.sp as u16;
        match self.bus.read_byte(addr) {
            Ok(b) => b,
            Err(_) => {
                // The stack page is always inside the mapped region.
                proof {
                    assert(false);
                }
                0
            },
        }
    }
}

/// The bit mask a flag occupies, as executable code.
fn mask(flag: Flag) -> (r: u8)
    ensures
        r == flag_mask(flag),
{
    match flag {
        Flag::Carry => 0x01,
        Flag::Zero => 0x02,
        Flag::InterruptDisable => 0x04,
        Flag::Decimal => 0x08,
        Flag::Overflow => 0x40,
        Flag::Negative => 0x80,
    }
}

/// Setting a mask bit and reading the same mask back yields the value
/// just written.
proof fn lemma_mask_set_get_same(p: u8, m: u8, v: bool)
    requires
        m != 0,
    ensures
        ((if v {
            p | m
        } else {
            p & !m
        }) & m != 0) == v,
{
    if v {
        assert(m != 0 ==> ((p | m) & m != 0)) by (bit_vector);
    } else {
        assert((p & !m) & m == 0) by (bit_vector);
    }
}

/// Setting one mask bit leaves every disjoint mask bit unchanged.
proof fn lemma_mask_set_get_other(p: u8, m: u8, g: u8, v: bool)
    requires
        m & g == 0,
    ensures
        ((if v {
            p | m
        } else {
            p & !m
        }) & g != 0) == (p & g != 0),
{
    if v {
        assert(m & g == 0 ==> (p | m) & g == p & g) by (bit_vector);
    } else {
        assert((p & !m) & g == (p & g) & !m) by (bit_vector);
        assert(m & g == 0 ==> (p & g) & !m == p & g) by (bit_vector);
    }
}

/// Every flag occupies its own single bit: the six masks are pairwise
/// disjoint and none is zero.
proof fn lemma_flag_masks_distinct(f: Flag, g: Flag)
    ensures
        flag_mask(f) != 0,
        f != g ==> flag_mask(f) & flag_mask(g) == 0,
{
    assert(0x01u8 & 0x02 == 0 && 0x01u8 & 0x04 == 0 && 0x01u8 & 0x08 == 0 && 0x01u8 & 0x40 == 0
        && 0x01u8 & 0x80 == 0 && 0x02u8 & 0x04 == 0 && 0x02u8 & 0x08 == 0 && 0x02u8 & 0x40 == 0
        && 0x02u8 & 0x80 == 0 && 0x04u8 & 0x08 == 0 && 0x04u8 & 0x40 == 0 && 0x04u8 & 0x80 == 0
        && 0x08u8 & 0x40 == 0 && 0x08u8 & 0x80 == 0 && 0x40u8 & 0x80 == 0 && 0x02u8 & 0x01 == 0
        && 0x04u8 & 0x01 == 0 && 0x08u8 & 0x01 == 0 && 0x40u8 & 0x01 == 0 && 0x80u8 & 0x01 == 0
        && 0x04u8 & 0x02 == 0 && 0x08u8 & 0x02 == 0 && 0x40u8 & 0x02 == 0 && 0x80u8 & 0x02 == 0
        && 0x08u8 & 0x04 == 0 && 0x40u8 & 0x04 == 0 && 0x80u8 & 0x04 == 0 && 0x40u8 & 0x08 == 0
        && 0x80u8 & 0x08 == 0 && 0x80u8 & 0x40 == 0) by (bit_vector);
}

/// Reading a flag after writing one: the written flag comes back exactly
/// as stored, and every other flag is untouched — for every packed status
/// register value.
pub proof fn lemma_flag_set_get(p: u8, f: Flag, g: Flag, v: bool)
    ensures
        spec_flag_set(spec_set_flag(p, f, v), g) == (if f == g {
            v
        } else {
            spec_flag_set(p, g)
        }),
{
    lemma_flag_masks_distinct(f, g);
    if f == g {
        lemma_mask_set_get_same(p, flag_mask(f), v);
    } else {
        lemma_mask_set_get_other(p, flag_mask(f), flag_mask(g), v);
    }
}

/// Pushing a value and then popping returns that value, and the stack
/// pointer returns to where it started — for every value, every starting
/// stack pointer (both wraparound ends included) and every valid RAM.
pub proof fn lemma_stack_push_pop_round_trip(c: CpuView, value: u8)
    requires
        c.wf(),
    ensures
        spec_pop_value(spec_push_stack(c, value)) == value,
        spec_pop_stack(spec_push_stack(c, value)).sp == c.sp,
{
    assert(sp_inc(sp_dec(c.sp)) == c.sp);
}

} // verus!
