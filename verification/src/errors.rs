use vstd::prelude::*;

verus! {

/// The faults this core can surface to a driving host.
///
/// Both are unrecoverable at the point of occurrence: no instruction is ever
/// half-applied, the failing operation leaves the machine state untouched.
#[derive(Clone, Copy, Debug, PartialEq, Eq, Structural)]
pub enum EmuError {
    /// A bus access named an address outside the mapped RAM.
    OutOfRange(u16),
    /// An opcode byte with no defined instruction mapping.
    UnsupportedOpcode(u8),
}

} // verus!
