use vstd::prelude::*;

use crate::errors::EmuError;

verus! {

/// Number of bytes of RAM the bus maps, starting at address zero.
pub const RAM_SIZE: usize = 0x800;

/// The result of reading one byte at `addr` from RAM modelled as `ram`:
/// the stored byte when the address is mapped, `OutOfRange` otherwise.
pub open spec fn spec_read(ram: Seq<u8>, addr: u16) -> Result<u8, EmuError> {
    if addr < RAM_SIZE {
        Ok(ram[addr as int])
    } else {
        Err(EmuError::OutOfRange(addr))
    }
}

/// The result of writing `byte` at `addr` into RAM modelled as `ram`:
/// the updated RAM when the address is mapped, `OutOfRange` otherwise.
pub open spec fn spec_write(ram: Seq<u8>, addr: u16, byte: u8) -> Result<Seq<u8>, EmuError> {
    if addr < RAM_SIZE {
        Ok(ram.update(addr as int, byte))
    } else {
        Err(EmuError::OutOfRange(addr))
    }
}

/// Byte-addressable storage with bounds-checked access.
///
/// The bus is the only memory-owning entity; the processor reaches every
/// program and data byte through `read_byte` and `write_byte`.
pub struct Bus {
    ram: Vec<u8>,
}

impl View for Bus {
    type V = Seq<u8>;

    closed spec fn view(&self) -> Seq<u8> {
        self.ram@
    }
}

impl Bus {
    /// The bus always maps exactly `RAM_SIZE` bytes.
    pub open spec fn wf(&self) -> bool {
        self@.len() == RAM_SIZE
    }

    /// A fresh bus with every mapped byte zeroed.
    pub fn new() -> (b: Bus)
        ensures
            b.wf(),
            forall|i: int| 0 <= i < RAM_SIZE ==> b@[i] == 0u8,
    {
        let mut ram: Vec<u8> = Vec::new();
        while ram.len() < RAM_SIZE
            invariant
                ram@.len() <= RAM_SIZE,
                forall|i: int| 0 <= i < ram@.len() ==> ram@[i] == 0u8,
            decreases RAM_SIZE - ram@.len(),
        {
            ram.push(0u8);
        }
        Bus { ram }
    }

    /// Returns the stored byte, or `OutOfRange` when `addr` is not mapped.
    /// No side effects either way.
    pub fn read_byte(&self, addr: u16) -> (r: Result<u8, EmuError>)
        requires
            self.wf(),
        ensures
            r == spec_read(self@, addr),
    {
        if (addr as usize) < RAM_SIZE {
            Ok(self.ram[addr as usize])
        } else {
            Err(EmuError::OutOfRange(addr))
        }
    }

    /// Stores the byte, or returns `OutOfRange` when `addr` is not mapped,
    /// leaving memory unchanged in that case.
    pub fn write_byte(&mut self, addr: u16, byte: u8) -> (r: Result<(), EmuError>)
        requires
            old(self).wf(),
        ensures
            final(self).wf(),
            (match spec_write(old(self)@, addr, byte) {
                Ok(ram) => r == Ok::<(), EmuError>(()) && final(self)@ == ram,
                Err(e) => r == Err::<(), EmuError>(e) && final(self)@ == old(self)@,
            }),
    {
        if (addr as usize) < RAM_SIZE {
            self.ram[addr as usize] = byte;
            Ok(())
        } else {
            Err(EmuError::OutOfRange(addr))
        }
    }
}

/// A written byte is read back unchanged at every mapped address, and an
/// unmapped address reports `OutOfRange` on both reading and writing.
pub proof fn lemma_bus_round_trip(ram: Seq<u8>, addr: u16, v: u8)
    requires
        ram.len() == RAM_SIZE,
    ensures
        addr < RAM_SIZE ==> (spec_write(ram, addr, v) matches Ok(ram2)
            && spec_read(ram2, addr) == Ok::<u8, EmuError>(v)),
        addr >= RAM_SIZE ==> spec_write(ram, addr, v) == Err::<Seq<u8>, EmuError>(
            EmuError::OutOfRange(addr),
        ) && spec_read(ram, addr) == Err::<u8, EmuError>(EmuError::OutOfRange(addr)),
{
}

} // verus!
