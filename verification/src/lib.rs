//! A verified instruction-level core of the MOS 6502 microprocessor.
//!
//! The crate models the classic fetch-decode-execute loop: a [`bus::Bus`]
//! holds the mapped RAM, [`instruction::Instruction`] decodes opcode bytes,
//! and [`cpu::Cpu`] resolves addressing modes and executes operations,
//! updating registers and status flags. Every state change is specified
//! against a mathematical model of the machine ([`cpu::CpuView`]).

pub mod addressing;
pub mod bus;
pub mod cpu;
pub mod errors;
pub mod execute;
pub mod instruction;
