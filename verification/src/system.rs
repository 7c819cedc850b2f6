//! The execution engine: owns the register file and the memory bus, and
//! runs the fetch / decode / execute / advance loop. The whole engine is
//! modelled by one specification-level step function, [`spec_step`], so the
//! contract of [`System::run`] pins the final state down exactly: it is the
//! state reached by iterating [`spec_step`] from the starting state until a
//! halt or an unknown opcode.

use vstd::prelude::*;

use crate::cpu::CPU;
use crate::memory::{ea_spec, word_at, AddressingMode, Memory};
use crate::oprand::{Oprand, INX, LDA, TAX};
use crate::register::wrap16;

verus! {

/// The engine's state as one mathematical value: the five registers and the
/// memory contents.
#[verifier::ext_equal]
pub ghost struct SysView {
    pub ra: u8,
    pub rx: u8,
    pub ry: u8,
    pub status: u8,
    pub pc: u16,
    pub mem: Seq<u8>,
}

/// The state invariant: one byte per address.
pub open spec fn sv_wf(s: SysView) -> bool {
    s.mem.len() == 0x10000
}

/// The state after the engine fetched one opcode byte: the program counter
/// has moved past it, nothing else changed.
pub open spec fn fetched(s: SysView) -> SysView {
    SysView { pc: wrap16(s.pc + 1), ..s }
}

/// The opcode byte the engine fetches next.
pub open spec fn opcode_of(s: SysView) -> u8
    recommends
        sv_wf(s),
{
    s.mem[s.pc as int]
}

/// One dispatched instruction: which handler runs, under which addressing
/// mode.
pub enum Instruction {
    Lda(LDA),
    Tax(TAX),
    Inx(INX),
}

impl Oprand for Instruction {
    open spec fn valid(&self) -> bool {
        match *self {
            Instruction::Lda(op) => op.valid(),
            Instruction::Tax(op) => op.valid(),
            Instruction::Inx(op) => op.valid(),
        }
    }

    open spec fn apply(&self, s: SysView) -> SysView {
        match *self {
            Instruction::Lda(op) => op.apply(s),
            Instruction::Tax(op) => op.apply(s),
            Instruction::Inx(op) => op.apply(s),
        }
    }

    open spec fn size_spec(&self) -> u16 {
        match *self {
            Instruction::Lda(op) => op.size_spec(),
            Instruction::Tax(op) => op.size_spec(),
            Instruction::Inx(op) => op.size_spec(),
        }
    }

    fn execute(&self, system: &mut System) {
        match self {
            Instruction::Lda(op) => op.execute(system),
            Instruction::Tax(op) => op.execute(system),
            Instruction::Inx(op) => op.execute(system),
        }
    }

    fn step_size(&self) -> (n: u16) {
        match self {
            Instruction::Lda(op) => op.step_size(),
            Instruction::Tax(op) => op.step_size(),
            Instruction::Inx(op) => op.step_size(),
        }
    }
}

/// The total opcode table: which instruction, under which addressing mode,
/// a byte dispatches to. `None` for the halt opcode 0x00 and for every
/// unmapped byte.
pub open spec fn decode_spec(code: u8) -> Option<Instruction> {
    match code {
        0xA9 => Some(Instruction::Lda(LDA { mode: AddressingMode::Immediate })),
        0xA5 => Some(Instruction::Lda(LDA { mode: AddressingMode::ZeroPage })),
        0xAD => Some(Instruction::Lda(LDA { mode: AddressingMode::Absolute })),
        0xAA => Some(Instruction::Tax(TAX { mode: AddressingMode::Immediate })),
        0xE8 => Some(Instruction::Inx(INX { mode: AddressingMode::Immediate })),
        _ => None,
    }
}

/// The fetched opcode halts the engine.
pub open spec fn step_halts(s: SysView) -> bool
    recommends
        sv_wf(s),
{
    opcode_of(s) == 0
}

/// The fetched opcode has no table entry: the engine fails, naming the byte
/// and the counter.
pub open spec fn step_faults(s: SysView) -> bool
    recommends
        sv_wf(s),
{
    opcode_of(s) != 0 && decode_spec(opcode_of(s)) is None
}

/// The fetched opcode dispatches to an instruction and the engine goes on.
pub open spec fn step_continues(s: SysView) -> bool
    recommends
        sv_wf(s),
{
    decode_spec(opcode_of(s)) is Some
}

/// One full engine cycle from `s`: fetch the opcode, and if it dispatches,
/// execute the instruction and advance the counter by its operand length —
/// unless the instruction moved the counter itself, in which case the
/// advance is suppressed (branch semantics). On a halt or an unknown opcode
/// only the fetch happens.
pub open spec fn spec_step(s: SysView) -> SysView {
    let f = fetched(s);
    match decode_spec(opcode_of(s)) {
        Some(instr) => {
            let t = instr.apply(f);
            if t.pc == f.pc {
                SysView { pc: wrap16(t.pc + instr.size_spec()), ..t }
            } else {
                t
            }
        },
        None => f,
    }
}

/// The state after `n` full engine cycles from `s`.
pub open spec fn run_steps(s: SysView, n: nat) -> SysView
    decreases n,
{
    if n == 0 {
        s
    } else {
        spec_step(run_steps(s, (n - 1) as nat))
    }
}

/// The first `n` cycles from `s` all dispatch an instruction: no halt and
/// no unknown opcode among them.
pub open spec fn runs_freely(s: SysView, n: nat) -> bool {
    forall|k: nat| k < n ==> step_continues(#[trigger] run_steps(s, k))
}

/// Execution from `s` eventually stops dispatching: some cycle reaches the
/// halt opcode or an unknown opcode. This ghost fact is the fuel
/// [`System::run`] consumes; a program that never halts has no such bound
/// and cannot be run to completion.
pub open spec fn eventually_stops(s: SysView) -> bool {
    exists|n: nat| !step_continues(#[trigger] run_steps(s, n))
}

/// The engine's state after `load` placed `program` at the fixed origin and
/// `reset` cleared the registers and followed the reset vector: registers
/// zero, counter at the origin, memory holding the program at the origin and
/// the origin's address in the vector cells.
pub open spec fn boot_view(m: Seq<u8>, program: Seq<u8>) -> SysView
    recommends
        m.len() == 0x10000,
        program.len() <= 0x8000,
{
    SysView {
        ra: 0,
        rx: 0,
        ry: 0,
        status: 0,
        pc: 0x8000,
        mem: Seq::new(
            0x10000,
            |i: int|
                if i == 0xFFFC {
                    0x00u8
                } else if i == 0xFFFD {
                    0x80u8
                } else if 0x8000 <= i < 0x8000 + program.len() {
                    program[i - 0x8000]
                } else {
                    m[i]
                },
        ),
    }
}

/// What one call of [`System::fetch_and_execute_one`] reports: the engine
/// either goes on or has halted on the halt opcode.
#[derive(Debug, Clone, Copy, PartialEq, Eq, Structural)]
pub enum StepState {
    Continuing,
    Halted,
}

/// The unrecoverable failures of the engine.
#[derive(Debug, Clone, Copy, PartialEq, Eq, Structural)]
pub enum EmuError {
    /// A fetched byte has no dispatch-table entry: the byte and the address
    /// it was fetched from.
    UnknownOpcode { opcode: u8, addr: u16 },
}

/// The execution engine: the register file and the memory bus it owns.
pub struct System {
    pub cpu: CPU,
    pub mem: Memory,
}

impl View for System {
    type V = SysView;

    open spec fn view(&self) -> SysView {
        SysView {
            ra: self.cpu.ra.0,
            rx: self.cpu.rx.0,
            ry: self.cpu.ry.0,
            status: self.cpu.status.0,
            pc: self.cpu.pc.0,
            mem: self.mem@,
        }
    }
}

impl System {
    /// The engine invariant: the bus holds one byte per address.
    pub open spec fn wf(&self) -> bool {
        sv_wf(self@)
    }

    /// An engine with zeroed registers and zeroed memory.
    pub fn new() -> (r: System)
        ensures
            r.wf(),
            r@.ra == 0,
            r@.rx == 0,
            r@.ry == 0,
            r@.status == 0,
            r@.pc == 0,
            forall|i: int| 0 <= i < 0x10000 ==> r@.mem[i] == 0,
    {
        System { cpu: CPU::new(), mem: Memory::new() }
    }

    /// The current program counter.
    pub fn pc(&self) -> (r: u16)
        ensures
            r == self@.pc,
    {
        self.cpu.pc.0
    }

    /// Copy `program` to the fixed program origin and store the origin's
    /// address in the reset-vector cells. Registers are untouched; the next
    /// `reset` will start execution at the origin.
    pub fn load(&mut self, program: Vec<u8>)
        requires
            old(self).wf(),
            program@.len() <= 0x8000,
        ensures
            final(self).wf(),
            final(self)@.ra == old(self)@.ra,
            final(self)@.rx == old(self)@.rx,
            final(self)@.ry == old(self)@.ry,
            final(self)@.status == old(self)@.status,
            final(self)@.pc == old(self)@.pc,
            final(self)@.mem == boot_view(old(self)@.mem, program@).mem,
    {
        self.mem.load(0x8000, program.as_slice());
        self.mem.write_u16(0xFFFC, 0x8000);
        proof {
            assert(self@.mem =~= boot_view(old(self)@.mem, program@).mem);
        }
    }

    /// Zero the registers and flags and load the program counter from the
    /// reset vector.
    pub fn reset(&mut self)
        requires
            old(self).wf(),
        ensures
            final(self).wf(),
            final(self)@.ra == 0,
            final(self)@.rx == 0,
            final(self)@.ry == 0,
            final(self)@.status == 0,
            final(self)@.pc == word_at(old(self)@.mem, 0xFFFC),
            final(self)@.mem == old(self)@.mem,
    {
        self.cpu.reset();
        self.cpu.pc.0 = self.mem.read_u16(0xFFFC);
    }

    /// Look the opcode byte up in the dispatch table. `None` for the halt
    /// opcode and for every byte the table does not map; every dispatched
    /// instruction carries a mode its handler supports.
    pub fn dispatch(code: u8) -> (r: Option<Instruction>)
        ensures
            r == decode_spec(code),
            match r { Some(instr) => instr.valid(), None => true },
    {
        match code {
            0xA9 => Some(Instruction::Lda(LDA { mode: AddressingMode::Immediate })),
            0xA5 => Some(Instruction::Lda(LDA { mode: AddressingMode::ZeroPage })),
            0xAD => Some(Instruction::Lda(LDA { mode: AddressingMode::Absolute })),
            0xAA => Some(Instruction::Tax(TAX { mode: AddressingMode::Immediate })),
            0xE8 => Some(Instruction::Inx(INX { mode: AddressingMode::Immediate })),
            _ => None,
        }
    }

    /// Fetch the opcode byte at the program counter and advance the counter
    /// past it.
    pub fn fetch(&mut self) -> (code: u8)
        requires
            old(self).wf(),
        ensures
            final(self).wf(),
            code == opcode_of(old(self)@),
            final(self)@ == fetched(old(self)@),
    {
        let code = self.mem.read(self.pc());
        self.cpu.pc.step();
        proof {
            assert(self@ =~= fetched(old(self)@));
        }
        code
    }

    /// Read the byte at `addr` and advance the program counter past one
    /// operand byte.
    pub fn fetch_from(&mut self, addr: u16) -> (code: u8)
        requires
            old(self).wf(),
        ensures
            final(self).wf(),
            code == old(self)@.mem[addr as int],
            final(self)@ == fetched(old(self)@),
    {
        let code = self.mem.read(addr);
        self.cpu.pc.step();
        proof {
            assert(self@ =~= fetched(old(self)@));
        }
        code
    }

    /// Perform exactly one fetch / dispatch / execute / advance cycle. The
    /// new state is [`spec_step`] of the old one, always; the report says
    /// whether the fetched opcode halted the engine, dispatched, or was
    /// unknown — in the last case the error names the byte and the address
    /// it was fetched from.
    pub fn fetch_and_execute_one(&mut self) -> (r: Result<StepState, EmuError>)
        requires
            old(self).wf(),
        ensures
            final(self).wf(),
            final(self)@ == spec_step(old(self)@),
            step_halts(old(self)@) ==> r == Ok::<StepState, EmuError>(StepState::Halted),
            step_continues(old(self)@) ==> r == Ok::<StepState, EmuError>(StepState::Continuing),
            step_faults(old(self)@) ==> r == Err::<StepState, EmuError>(
                EmuError::UnknownOpcode { opcode: opcode_of(old(self)@), addr: old(self)@.pc },
            ),
    {
        let pos = self.pc();
        let opscode = self.fetch();
        if opscode == 0x00 {
            return Ok(StepState::Halted);
        }
        match Self::dispatch(opscode) {
            None => Err(EmuError::UnknownOpcode { opcode: opscode, addr: pos }),
            Some(oprand) => {
                let program_counter_state = self.pc();
                oprand.execute(self);
                if program_counter_state == self.pc() {
                    let n = oprand.step_size();
                    self.cpu.pc.step_n(n);
                }
                proof {
                    assert(self@ =~= spec_step(old(self)@));
                }
                Ok(StepState::Continuing)
            },
        }
    }

    /// Run fetch / execute cycles until the halt opcode stops the engine or
    /// an unknown opcode fails it. The final state is exactly the iterate of
    /// [`spec_step`] from the starting state: some number of dispatching
    /// cycles, then the one halting or failing cycle. The caller supplies the
    /// ghost fact that the program eventually stops dispatching; the loop
    /// consumes it as fuel.
    #[verifier::loop_isolation(false)]
    pub fn run(&mut self) -> (r: Result<(), EmuError>)
        requires
            old(self).wf(),
            eventually_stops(old(self)@),
        ensures
            final(self).wf(),
            match r {
                Ok(u) => exists|n: nat|
                    {
                        &&& #[trigger] runs_freely(old(self)@, n)
                        &&& step_halts(run_steps(old(self)@, n))
                        &&& final(self)@ == spec_step(run_steps(old(self)@, n))
                    },
                Err(e) => exists|n: nat|
                    {
                        &&& #[trigger] runs_freely(old(self)@, n)
                        &&& step_faults(run_steps(old(self)@, n))
                        &&& final(self)@ == spec_step(run_steps(old(self)@, n))
                        &&& e == EmuError::UnknownOpcode {
                            opcode: opcode_of(run_steps(old(self)@, n)),
                            addr: run_steps(old(self)@, n).pc,
                        }
                    },
            },
    {
        let ghost limit = choose|n: nat| !step_continues(#[trigger] run_steps(old(self)@, n));
        let ghost mut k: nat = 0;
        loop
            invariant
                self.wf(),
                runs_freely(old(self)@, k),
                self@ == run_steps(old(self)@, k),
                k <= limit,
                !step_continues(run_steps(old(self)@, limit)),
            decreases limit - k,
        {
            let ghost pre = self@;
            match self.fetch_and_execute_one() {
                Ok(StepState::Halted) => {
                    proof {
                        assert(step_halts(pre) || step_continues(pre) || step_faults(pre));
                        assert(runs_freely(old(self)@, k) && step_halts(run_steps(old(self)@, k))
                            && self@ == spec_step(run_steps(old(self)@, k)));
                    }
                    return Ok(());
                },
                Ok(StepState::Continuing) => {
                    proof {
                        assert(step_halts(pre) || step_continues(pre) || step_faults(pre));
                        assert(step_continues(pre));
                        assert(run_steps(old(self)@, k + 1) == spec_step(run_steps(old(self)@, k)));
                        assert forall|j: nat| j < k + 1 implies step_continues(
                            #[trigger] run_steps(old(self)@, j),
                        ) by {
                            if j < k {
                                assert(runs_freely(old(self)@, k));
                            } else {
                                assert(run_steps(old(self)@, j) == pre);
                            }
                        };
                        k = k + 1;
                        assert(k <= limit) by {
                            if limit < k {
                                assert(step_continues(run_steps(old(self)@, limit)));
                            }
                        };
                    }
                },
                Err(e) => {
                    proof {
                        assert(step_halts(pre) || step_continues(pre) || step_faults(pre));
                        assert(runs_freely(old(self)@, k) && step_faults(run_steps(old(self)@, k))
                            && self@ == spec_step(run_steps(old(self)@, k)));
                    }
                    return Err(e);
                },
            }
        }
    }

    /// Load `program`, reset, and run it to completion: the composition of
    /// [`System::load`], [`System::reset`] and [`System::run`]. The final
    /// state is the iterate of [`spec_step`] from the freshly booted state
    /// [`boot_view`].
    pub fn load_and_run(&mut self, program: Vec<u8>) -> (r: Result<(), EmuError>)
        requires
            old(self).wf(),
            program@.len() <= 0x8000,
            eventually_stops(boot_view(old(self)@.mem, program@)),
        ensures
            final(self).wf(),
            match r {
                Ok(u) => exists|n: nat|
                    {
                        &&& #[trigger] runs_freely(boot_view(old(self)@.mem, program@), n)
                        &&& step_halts(run_steps(boot_view(old(self)@.mem, program@), n))
                        &&& final(self)@ == spec_step(
                            run_steps(boot_view(old(self)@.mem, program@), n),
                        )
                    },
                Err(e) => exists|n: nat|
                    {
                        &&& #[trigger] runs_freely(boot_view(old(self)@.mem, program@), n)
                        &&& step_faults(run_steps(boot_view(old(self)@.mem, program@), n))
                        &&& final(self)@ == spec_step(
                            run_steps(boot_view(old(self)@.mem, program@), n),
                        )
                        &&& e == EmuError::UnknownOpcode {
                            opcode: opcode_of(run_steps(boot_view(old(self)@.mem, program@), n)),
                            addr: run_steps(boot_view(old(self)@.mem, program@), n).pc,
                        }
                    },
            },
    {
        let ghost boot = boot_view(old(self)@.mem, program@);
        self.load(program);
        self.reset();
        proof {
            assert(word_at(self@.mem, 0xFFFC) == 0x8000);
            assert(self@ =~= boot);
        }
        self.run()
    }
}

impl Default for System {
    /// Same engine as [`System::new`]: zeroed registers, zeroed memory.
    fn default() -> (r: Self)
        ensures
            r.wf(),
            r@.ra == 0,
            r@.rx == 0,
            r@.ry == 0,
            r@.status == 0,
            r@.pc == 0,
            forall|i: int| 0 <= i < 0x10000 ==> r@.mem[i] == 0,
    {
        System::new()
    }
}

} // verus!
