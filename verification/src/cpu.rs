//! The register file as one value: accumulator, index registers, status
//! flags and program counter.

use vstd::prelude::*;

use crate::register::{flags_zn, Accumulator, ProgramCounter, RegisterX, RegisterY, Status};

verus! {

/// The processor's complete register state.
pub struct CPU {
    pub ra: Accumulator,
    pub rx: RegisterX,
    pub ry: RegisterY,
    pub status: Status,
    pub pc: ProgramCounter,
}

impl CPU {
    /// A register file with everything zeroed.
    pub fn new() -> (r: CPU)
        ensures
            r.ra.0 == 0,
            r.rx.0 == 0,
            r.ry.0 == 0,
            r.status.0 == 0,
            r.pc.0 == 0,
    {
        CPU {
            ra: Accumulator(0),
            rx: RegisterX(0),
            ry: RegisterY(0),
            status: Status(0),
            pc: ProgramCounter(0),
        }
    }

    /// Zero every register and flag, and park the program counter on the
    /// reset-vector location; the engine then overwrites it with the vector's
    /// contents.
    pub fn reset(&mut self)
        ensures
            final(self).ra.0 == 0,
            final(self).rx.0 == 0,
            final(self).ry.0 == 0,
            final(self).status.0 == 0,
            final(self).pc.0 == 0xFFFC,
    {
        self.ra.reset();
        self.rx.reset();
        self.ry.reset();
        self.status.reset();
        self.pc.reset();
    }

    /// Recompute the Zero and Negative flags from the accumulator's current
    /// value, leaving every other flag alone.
    pub fn update_registers(&mut self)
        ensures
            final(self).status.0 == flags_zn(old(self).status.0, old(self).ra.0),
            final(self).ra == old(self).ra,
            final(self).rx == old(self).rx,
            final(self).ry == old(self).ry,
            final(self).pc == old(self).pc,
    {
        let z = self.ra.is_zero();
        self.status.set(Status::ZERO, z);
        let n = self.ra.is_set(7);
        self.status.set(Status::NEGATIVE, n);
    }
}

impl Default for CPU {
    /// Same register file as [`CPU::new`]: everything zeroed.
    fn default() -> (r: Self)
        ensures
            r.ra.0 == 0,
            r.rx.0 == 0,
            r.ry.0 == 0,
            r.status.0 == 0,
            r.pc.0 == 0,
    {
        Self::new()
    }
}

} // verus!
