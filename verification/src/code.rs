//! The instruction set over a bare register file and a program byte slice:
//! each opcode's effect on the registers, with the operand fetched directly
//! from the program bytes at the program counter.

use vstd::prelude::*;

use crate::cpu::CPU;
use crate::register::{flags_zn, wrap16, wrap8, Status};

verus! {

/// The closed set of implemented opcodes.
#[derive(Debug, Clone, Copy, PartialEq, Eq, Structural)]
pub enum Code {
    TAX,
    LDA,
    BRK,
    INX,
}

impl Code {
    /// Run one instruction against the register file. `LDA` takes its
    /// operand from `program` at the program counter, so the counter must
    /// point into the program; `BRK` leaves the state alone and the caller
    /// stops its loop.
    pub fn execute(&self, cpu: &mut CPU, program: &[u8])
        requires
            *self is LDA ==> old(cpu).pc.0 < program@.len(),
        ensures
            match *self {
                Code::LDA => {
                    &&& final(cpu).ra.0 == program@[old(cpu).pc.0 as int]
                    &&& final(cpu).pc.0 == wrap16(old(cpu).pc.0 + 1)
                    &&& final(cpu).status.0 == flags_zn(
                        old(cpu).status.0,
                        program@[old(cpu).pc.0 as int],
                    )
                    &&& final(cpu).rx == old(cpu).rx
                    &&& final(cpu).ry == old(cpu).ry
                },
                Code::TAX => {
                    &&& final(cpu).rx.0 == old(cpu).ra.0
                    &&& final(cpu).status.0 == flags_zn(old(cpu).status.0, old(cpu).ra.0)
                    &&& final(cpu).ra == old(cpu).ra
                    &&& final(cpu).ry == old(cpu).ry
                    &&& final(cpu).pc == old(cpu).pc
                },
                Code::INX => {
                    &&& final(cpu).rx.0 == wrap8(old(cpu).rx.0 + 1)
                    &&& final(cpu).status.0 == flags_zn(old(cpu).status.0, wrap8(old(cpu).rx.0 + 1))
                    &&& final(cpu).ra == old(cpu).ra
                    &&& final(cpu).ry == old(cpu).ry
                    &&& final(cpu).pc == old(cpu).pc
                },
                Code::BRK => *final(cpu) == *old(cpu),
            },
    {
        match self {
            Code::TAX => handle_tax(cpu),
            Code::LDA => handle_lda(cpu, program),
            Code::INX => handle_inx(cpu),
            Code::BRK => (),
        }
    }
}

/// Load the program byte at the program counter into the accumulator,
/// advance the counter past it, and derive Zero/Negative from the loaded
/// value.
pub fn handle_lda(cpu: &mut CPU, program: &[u8])
    requires
        old(cpu).pc.0 < program@.len(),
    ensures
        final(cpu).ra.0 == program@[old(cpu).pc.0 as int],
        final(cpu).pc.0 == wrap16(old(cpu).pc.0 + 1),
        final(cpu).status.0 == flags_zn(old(cpu).status.0, program@[old(cpu).pc.0 as int]),
        final(cpu).rx == old(cpu).rx,
        final(cpu).ry == old(cpu).ry,
{
    let param = program[cpu.pc.0 as usize];
    cpu.pc.step();
    cpu.ra.load(param);
    let z = cpu.ra.is_zero();
    cpu.status.set(Status::ZERO, z);
    let n = cpu.ra.is_set(7);
    cpu.status.set(Status::NEGATIVE, n);
}

/// Copy the accumulator into X and derive Zero/Negative from the new X
/// value.
pub fn handle_tax(cpu: &mut CPU)
    ensures
        final(cpu).rx.0 == old(cpu).ra.0,
        final(cpu).status.0 == flags_zn(old(cpu).status.0, old(cpu).ra.0),
        final(cpu).ra == old(cpu).ra,
        final(cpu).ry == old(cpu).ry,
        final(cpu).pc == old(cpu).pc,
{
    cpu.rx.0 = cpu.ra.0;
    let z = cpu.rx.0 == 0;
    cpu.status.set(Status::ZERO, z);
    let n = cpu.rx.0 >= 0x80;
    cpu.status.set(Status::NEGATIVE, n);
    proof {
        lemma_bit7_is_high_half(cpu.rx.0);
    }
}

/// Add one to X with 8-bit wraparound and derive Zero/Negative from the new
/// X value.
pub fn handle_inx(cpu: &mut CPU)
    ensures
        final(cpu).rx.0 == wrap8(old(cpu).rx.0 + 1),
        final(cpu).status.0 == flags_zn(old(cpu).status.0, wrap8(old(cpu).rx.0 + 1)),
        final(cpu).ra == old(cpu).ra,
        final(cpu).ry == old(cpu).ry,
        final(cpu).pc == old(cpu).pc,
{
    cpu.rx.0 = cpu.rx.0.wrapping_add(1);
    let z = cpu.rx.0 == 0;
    cpu.status.set(Status::ZERO, z);
    let n = cpu.rx.0 >= 0x80;
    cpu.status.set(Status::NEGATIVE, n);
    proof {
        lemma_bit7_is_high_half(cpu.rx.0);
    }
}

/// Bit 7 of a byte is set exactly when the byte is at least 0x80.
pub open spec fn bit7_is_high_half(v: u8) -> bool {
    crate::register::bit_of(v, 7) == (v >= 0x80)
}

/// [`bit7_is_high_half`] holds of every byte.
pub proof fn lemma_bit7_is_high_half(v: u8)
    ensures
        bit7_is_high_half(v),
{
    assert(v & (1u8 << 7) != 0 <==> v >= 0x80) by (bit_vector);
}

} // verus!
