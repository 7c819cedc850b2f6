//! The instruction capability: every instruction can execute against the
//! whole system and report its encoded operand length. Each implementation
//! carries an exact specification-level state transformer, so the engine's
//! step function is pinned down instruction by instruction.

use vstd::prelude::*;

use crate::code::lemma_bit7_is_high_half;
use crate::memory::{ea_spec, AddressingMode};
use crate::register::{flags_zn, wrap8, Status};
use crate::system::{System, SysView};

verus! {

/// What an instruction can do: run against the system, and say how many
/// operand bytes the engine must advance past afterwards. `apply` is the
/// instruction's exact effect on the system state, `valid` the addressing
/// modes its handler supports, and `size_spec` its encoded operand length.
pub trait Oprand: Sized {
    /// The addressing modes this instruction supports.
    spec fn valid(&self) -> bool;

    /// The exact system state after this instruction ran from `s`, with the
    /// program counter already pointing at its operand bytes.
    spec fn apply(&self, s: SysView) -> SysView;

    /// The encoded operand length the engine advances past.
    spec fn size_spec(&self) -> u16;

    /// Run the instruction. The new state is exactly `apply` of the old.
    fn execute(&self, system: &mut System)
        requires
            old(system).wf(),
            self.valid(),
        ensures
            final(system).wf(),
            final(system)@ == self.apply(old(system)@),
    ;

    /// The encoded operand length, as a value.
    fn step_size(&self) -> (n: u16)
        requires
            self.valid(),
        ensures
            n == self.size_spec(),
    ;
}

/// Load accumulator: resolve the operand address, read the byte there,
/// store it in the accumulator and derive Zero/Negative from it.
pub struct LDA {
    pub mode: AddressingMode,
}

impl Oprand for LDA {
    open spec fn valid(&self) -> bool {
        ||| self.mode is Immediate
        ||| self.mode is ZeroPage
        ||| self.mode is Absolute
    }

    open spec fn apply(&self, s: SysView) -> SysView {
        let addr = ea_spec(self.mode, s.mem, s.pc, s.rx, s.ry);
        let b = s.mem[addr as int];
        SysView { ra: b, status: flags_zn(s.status, b), ..s }
    }

    open spec fn size_spec(&self) -> u16 {
        match self.mode {
            AddressingMode::Immediate => 1,
            AddressingMode::ZeroPage => 1,
            AddressingMode::Absolute => 2,
            _ => 0,
        }
    }

    fn execute(&self, system: &mut System) {
        let addr = system.mem.translate(&self.mode, &system.cpu);
        let param = system.mem.read(addr);
        system.cpu.ra.load(param);
        let z = system.cpu.ra.is_zero();
        system.cpu.status.set(Status::ZERO, z);
        let n = system.cpu.ra.is_set(7);
        system.cpu.status.set(Status::NEGATIVE, n);
        proof {
            assert(system@ =~= self.apply(old(system)@));
        }
    }

    fn step_size(&self) -> (n: u16) {
        match self.mode {
            AddressingMode::Immediate => 1,
            AddressingMode::ZeroPage => 1,
            AddressingMode::Absolute => 2,
            _ => {
                proof {
                    assert(false);
                }
                0
            },
        }
    }
}

/// Transfer accumulator to X: copy the accumulator into X and derive
/// Zero/Negative from the new X value.
pub struct TAX {
    pub mode: AddressingMode,
}

impl Oprand for TAX {
    open spec fn valid(&self) -> bool {
        true
    }

    open spec fn apply(&self, s: SysView) -> SysView {
        SysView { rx: s.ra, status: flags_zn(s.status, s.ra), ..s }
    }

    open spec fn size_spec(&self) -> u16 {
        0
    }

    fn execute(&self, system: &mut System) {
        system.cpu.rx.0 = system.cpu.ra.0;
        let z = system.cpu.rx.0 == 0;
        system.cpu.status.set(Status::ZERO, z);
        let n = system.cpu.rx.0 >= 0x80;
        system.cpu.status.set(Status::NEGATIVE, n);
        proof {
            lemma_bit7_is_high_half(system.cpu.rx.0);
            assert(system@ =~= self.apply(old(system)@));
        }
    }

    fn step_size(&self) -> (n: u16) {
        0
    }
}

/// Increment X: add one to X with 8-bit wraparound and derive Zero/Negative
/// from the new X value.
pub struct INX {
    pub mode: AddressingMode,
}

impl Oprand for INX {
    open spec fn valid(&self) -> bool {
        true
    }

    open spec fn apply(&self, s: SysView) -> SysView {
        let x = wrap8(s.rx + 1);
        SysView { rx: x, status: flags_zn(s.status, x), ..s }
    }

    open spec fn size_spec(&self) -> u16 {
        0
    }

    fn execute(&self, system: &mut System) {
        system.cpu.rx.0 = system.cpu.rx.0.wrapping_add(1);
        let z = system.cpu.rx.0 == 0;
        system.cpu.status.set(Status::ZERO, z);
        let n = system.cpu.rx.0 >= 0x80;
        system.cpu.status.set(Status::NEGATIVE, n);
        proof {
            lemma_bit7_is_high_half(system.cpu.rx.0);
            assert(system@ =~= self.apply(old(system)@));
        }
    }

    fn step_size(&self) -> (n: u16) {
        0
    }
}

} // verus!
