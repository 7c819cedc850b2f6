//! The architectural laws the instruction set obeys, proved once and for
//! all states: how the Zero and Negative flags follow the written register,
//! how index arithmetic wraps, and how the halt opcode stops the engine.

use vstd::prelude::*;

use crate::memory::{ea_spec, AddressingMode};
use crate::oprand::{Oprand, INX, LDA, TAX};
use crate::register::{bit_of, flag_on, flags_zn, wrap8, Status};
use crate::system::{
    boot_view, opcode_of, run_steps, runs_freely, spec_step, step_continues, SysView,
};

verus! {

/// Writing `v` to a register sets Zero iff `v == 0`, sets Negative iff bit 7
/// of `v` is set, and leaves every other status bit exactly as it was.
pub proof fn lemma_flags_zn(st: u8, v: u8)
    ensures
        flag_on(flags_zn(st, v), Status::ZERO) <==> v == 0,
        flag_on(flags_zn(st, v), Status::NEGATIVE) <==> bit_of(v, 7),
        flag_on(flags_zn(st, v), Status::CARRY) == flag_on(st, Status::CARRY),
        flag_on(flags_zn(st, v), Status::INTERRUPT_DISABLE) == flag_on(
            st,
            Status::INTERRUPT_DISABLE,
        ),
        flag_on(flags_zn(st, v), Status::DECIMAL_MODE) == flag_on(st, Status::DECIMAL_MODE),
        flag_on(flags_zn(st, v), Status::BREAK) == flag_on(st, Status::BREAK),
        flag_on(flags_zn(st, v), Status::BREAK2) == flag_on(st, Status::BREAK2),
        flag_on(flags_zn(st, v), Status::OVERFLOW) == flag_on(st, Status::OVERFLOW),
{
    assert(flag_on(flags_zn(st, v), 0x02u8) <==> v == 0) by (bit_vector);
    assert(flag_on(flags_zn(st, v), 0x80u8) <==> bit_of(v, 7)) by (bit_vector);
    assert(flag_on(flags_zn(st, v), 0x01u8) == flag_on(st, 0x01u8)) by (bit_vector);
    assert(flag_on(flags_zn(st, v), 0x04u8) == flag_on(st, 0x04u8)) by (bit_vector);
    assert(flag_on(flags_zn(st, v), 0x08u8) == flag_on(st, 0x08u8)) by (bit_vector);
    assert(flag_on(flags_zn(st, v), 0x10u8) == flag_on(st, 0x10u8)) by (bit_vector);
    assert(flag_on(flags_zn(st, v), 0x20u8) == flag_on(st, 0x20u8)) by (bit_vector);
    assert(flag_on(flags_zn(st, v), 0x40u8) == flag_on(st, 0x40u8)) by (bit_vector);
}

/// Loading any byte `b` with `LDA` in Immediate mode puts `b` in the
/// accumulator, sets Zero iff `b == 0` and sets Negative iff bit 7 of `b`
/// is set — for every byte and every starting state.
pub proof fn lemma_lda_immediate_flags(s: SysView)
    requires
        s.mem.len() == 0x10000,
    ensures
        (LDA { mode: AddressingMode::Immediate }).apply(s).ra == s.mem[s.pc as int],
        flag_on((LDA { mode: AddressingMode::Immediate }).apply(s).status, Status::ZERO) <==> s.mem[
            s.pc as int
        ] == 0,
        flag_on((LDA { mode: AddressingMode::Immediate }).apply(s).status, Status::NEGATIVE)
            <==> bit_of(s.mem[s.pc as int], 7),
{
    lemma_flags_zn(s.status, s.mem[s.pc as int]);
}

/// Incrementing X wraps at 8 bits, and the flags follow the new X value:
/// from X == 0xFF one `INX` yields X == 0 with Zero set and Negative clear,
/// and a second yields X == 1 with both clear — whatever the rest of the
/// state holds.
pub proof fn lemma_inx_wraparound(s: SysView)
    requires
        s.rx == 0xFF,
    ensures
        (INX { mode: AddressingMode::Immediate }).apply(s).rx == 0,
        flag_on((INX { mode: AddressingMode::Immediate }).apply(s).status, Status::ZERO),
        !flag_on((INX { mode: AddressingMode::Immediate }).apply(s).status, Status::NEGATIVE),
        (INX { mode: AddressingMode::Immediate }).apply(
            (INX { mode: AddressingMode::Immediate }).apply(s),
        ).rx == 1,
        !flag_on(
            (INX { mode: AddressingMode::Immediate }).apply(
                (INX { mode: AddressingMode::Immediate }).apply(s),
            ).status,
            Status::ZERO,
        ),
        !flag_on(
            (INX { mode: AddressingMode::Immediate }).apply(
                (INX { mode: AddressingMode::Immediate }).apply(s),
            ).status,
            Status::NEGATIVE,
        ),
{
    let once = (INX { mode: AddressingMode::Immediate }).apply(s);
    lemma_flags_zn(s.status, wrap8(s.rx + 1));
    lemma_flags_zn(once.status, wrap8(once.rx + 1));
    assert(!bit_of(0u8, 7) && !bit_of(1u8, 7)) by (bit_vector);
}

/// `TAX` copies the accumulator into X exactly, and both flags derive from
/// the new X value — so they depend only on the accumulator and the old
/// status byte, never on the X value that was overwritten.
pub proof fn lemma_tax_copies(s: SysView)
    ensures
        (TAX { mode: AddressingMode::Immediate }).apply(s).rx == s.ra,
        (TAX { mode: AddressingMode::Immediate }).apply(s).ra == s.ra,
        flag_on((TAX { mode: AddressingMode::Immediate }).apply(s).status, Status::ZERO) <==> s.ra
            == 0,
        flag_on((TAX { mode: AddressingMode::Immediate }).apply(s).status, Status::NEGATIVE)
            <==> bit_of(s.ra, 7),
        forall|t: SysView|
            t.status == s.status && t.ra == s.ra ==> (TAX {
                mode: AddressingMode::Immediate,
            }).apply(t).status == (TAX { mode: AddressingMode::Immediate }).apply(s).status,
{
    lemma_flags_zn(s.status, s.ra);
}

/// Zero-page indexed resolution wraps at 8 bits: the operand byte plus the
/// index register is taken modulo 0x100, so the effective address always
/// stays inside the zero page — the carry never leaks into the next page.
pub proof fn lemma_zero_page_x_wraps(s: SysView)
    requires
        s.mem.len() == 0x10000,
    ensures
        ea_spec(AddressingMode::ZeroPage_X, s.mem, s.pc, s.rx, s.ry) == wrap8(
            s.mem[s.pc as int] + s.rx,
        ) as u16,
        ea_spec(AddressingMode::ZeroPage_X, s.mem, s.pc, s.rx, s.ry) < 0x100,
        ea_spec(AddressingMode::ZeroPage_Y, s.mem, s.pc, s.rx, s.ry) == wrap8(
            s.mem[s.pc as int] + s.ry,
        ) as u16,
        ea_spec(AddressingMode::ZeroPage_Y, s.mem, s.pc, s.rx, s.ry) < 0x100,
{
}

/// The engine never runs past a halt opcode: if the byte at the program
/// counter is 0x00, no dispatching cycle is possible at all, so any
/// completed run performed exactly one cycle, which fetched the halt opcode
/// and mutated no register, flag or memory cell.
pub proof fn lemma_brk_halts_immediately(s: SysView, n: nat)
    requires
        s.mem.len() == 0x10000,
        opcode_of(s) == 0,
        runs_freely(s, n),
    ensures
        n == 0,
        run_steps(s, n) == s,
        spec_step(s).ra == s.ra,
        spec_step(s).rx == s.rx,
        spec_step(s).ry == s.ry,
        spec_step(s).status == s.status,
        spec_step(s).mem == s.mem,
        spec_step(s).pc == crate::register::wrap16(s.pc + 1),
{
    if n > 0 {
        assert(step_continues(run_steps(s, 0)));
        assert(false);
    }
}

/// A loaded program whose first byte is the halt opcode stops the engine at
/// once: the completed run left every register, flag and memory cell of the
/// booted state untouched and moved the program counter exactly one byte
/// past the origin. Together with the contract of
/// [`crate::system::System::load_and_run`] this pins the whole run down.
pub proof fn lemma_brk_program_halts_unchanged(m: Seq<u8>, program: Seq<u8>, n: nat)
    requires
        m.len() == 0x10000,
        1 <= program.len() <= 0x8000,
        program[0] == 0,
        runs_freely(boot_view(m, program), n),
    ensures
        n == 0,
        spec_step(run_steps(boot_view(m, program), n)).ra == 0,
        spec_step(run_steps(boot_view(m, program), n)).rx == 0,
        spec_step(run_steps(boot_view(m, program), n)).ry == 0,
        spec_step(run_steps(boot_view(m, program), n)).status == 0,
        spec_step(run_steps(boot_view(m, program), n)).mem == boot_view(m, program).mem,
        spec_step(run_steps(boot_view(m, program), n)).pc == 0x8001,
{
    assert(opcode_of(boot_view(m, program)) == 0);
    lemma_brk_halts_immediately(boot_view(m, program), n);
}

} // verus!
