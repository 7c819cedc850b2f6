//! Instruction-execution core of an 8-bit, 6502-class CPU emulator.
//!
//! The crate models the processor as a register file ([`cpu::CPU`]), a flat
//! 64 KiB memory bus ([`memory::Memory`]), an addressing-mode resolver
//! ([`memory::Memory::translate`]), a small instruction set behind the
//! [`oprand::Oprand`] capability, and an execution engine
//! ([`system::System`]) that runs the fetch / decode / execute /
//! advance loop. Every state change an instruction makes is pinned down by a
//! specification-level step function, so the behaviour of a whole run is
//! characterised exactly.

pub mod code;
pub mod cpu;
pub mod laws;
pub mod memory;
pub mod oprand;
pub mod register;
pub mod system;
