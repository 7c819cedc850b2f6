//! The memory bus: a flat 64 KiB byte array with byte and little-endian word
//! access, bulk program loading, and effective-address resolution for every
//! addressing mode.

use vstd::prelude::*;

use crate::cpu::CPU;
use crate::register::{wrap16, wrap8};

verus! {

/// The little-endian 16-bit word stored at `pos`; the high byte is read at
/// `pos + 1` wrapped to the address space, as the bus wraps all addresses.
pub open spec fn word_at(m: Seq<u8>, pos: u16) -> u16
    recommends
        m.len() == 0x10000,
{
    (m[pos as int] + m[wrap16(pos + 1) as int] * 0x100) as u16
}

/// The closed set of addressing modes an instruction can be tagged with.
#[allow(non_camel_case_types)]
#[derive(Debug, Clone, Copy, PartialEq, Eq, Structural)]
pub enum AddressingMode {
    Immediate,
    ZeroPage,
    ZeroPage_X,
    ZeroPage_Y,
    Absolute,
    Absolute_X,
    Absolute_Y,
    Indirect_X,
    Indirect_Y,
    NoneAddressing,
}

/// The effective address a mode resolves to, given the memory contents, the
/// program counter (pointing at the operand bytes) and the index registers.
/// Zero-page index additions wrap at 8 bits; absolute and indirect base
/// additions wrap at 16 bits; the two bytes of a zero-page pointer are both
/// fetched from the zero page, never from the following page.
/// `NoneAddressing` has no rule and is excluded by the resolver's
/// precondition.
pub open spec fn ea_spec(mode: AddressingMode, m: Seq<u8>, pc: u16, rx: u8, ry: u8) -> u16
    recommends
        m.len() == 0x10000,
        !(mode is NoneAddressing),
{
    match mode {
        AddressingMode::Immediate => pc,
        AddressingMode::ZeroPage => m[pc as int] as u16,
        AddressingMode::ZeroPage_X => wrap8(m[pc as int] + rx) as u16,
        AddressingMode::ZeroPage_Y => wrap8(m[pc as int] + ry) as u16,
        AddressingMode::Absolute => word_at(m, pc),
        AddressingMode::Absolute_X => wrap16(word_at(m, pc) + rx),
        AddressingMode::Absolute_Y => wrap16(word_at(m, pc) + ry),
        AddressingMode::Indirect_X => {
            let ptr = wrap8(m[pc as int] + rx);
            (m[ptr as int] + m[wrap8(ptr + 1) as int] * 0x100) as u16
        },
        AddressingMode::Indirect_Y => {
            let base = m[pc as int];
            let deref = (m[base as int] + m[wrap8(base + 1) as int] * 0x100) as u16;
            wrap16(deref + ry)
        },
        AddressingMode::NoneAddressing => 0,
    }
}

/// The 64 KiB memory bus, addressed 0..=0xFFFF.
pub struct Memory(pub Vec<u8>);

impl View for Memory {
    type V = Seq<u8>;

    open spec fn view(&self) -> Seq<u8> {
        self.0@
    }
}

impl Memory {
    /// The bus invariant: exactly one byte per address.
    pub open spec fn wf(&self) -> bool {
        self@.len() == 0x10000
    }

    /// A bus with every cell zeroed.
    pub fn new() -> (r: Memory)
        ensures
            r.wf(),
            forall|i: int| 0 <= i < 0x10000 ==> r@[i] == 0,
    {
        Memory(vec![0u8; 0x10000])
    }

    /// Copy `program` into the cells starting at `offset`. The caller
    /// guarantees the destination range fits; the bus never truncates.
    pub fn load(&mut self, offset: usize, program: &[u8])
        requires
            old(self).wf(),
            offset + program@.len() <= 0x10000,
        ensures
            final(self).wf(),
            forall|i: int|
                0 <= i < 0x10000 ==> final(self)@[i] == (if offset <= i < offset + program@.len() {
                    program@[i - offset]
                } else {
                    old(self)@[i]
                }),
    {
        let mut i: usize = 0;
        while i < program.len()
            invariant
                self.wf(),
                i <= program@.len(),
                offset + program@.len() <= 0x10000,
                forall|j: int|
                    0 <= j < 0x10000 ==> self@[j] == (if offset <= j < offset + i {
                        program@[j - offset]
                    } else {
                        old(self)@[j]
                    }),
            decreases program@.len() - i,
        {
            self.0[offset + i] = program[i];
            i += 1;
        }
    }

    /// The byte stored at `addr`.
    pub fn read(&self, addr: u16) -> (r: u8)
        requires
            self.wf(),
        ensures
            r == self@[addr as int],
    {
        self.0[addr as usize]
    }

    /// The little-endian word at `pos`; the high byte comes from `pos + 1`
    /// wrapped to the address space.
    pub fn read_u16(&self, pos: u16) -> (r: u16)
        requires
            self.wf(),
        ensures
            r == word_at(self@, pos),
    {
        let lo = self.read(pos);
        let hi = self.read(pos.wrapping_add(1));
        lo as u16 + hi as u16 * 0x100
    }

    /// Store `data` at `addr`, leaving every other cell alone.
    pub fn write(&mut self, addr: u16, data: u8)
        requires
            old(self).wf(),
        ensures
            final(self).wf(),
            final(self)@ == old(self)@.update(addr as int, data),
    {
        self.0[addr as usize] = data;
    }

    /// Store `data` little-endian at `pos` and `pos + 1` (wrapped), leaving
    /// every other cell alone; afterwards the word at `pos` reads back as
    /// `data`.
    pub fn write_u16(&mut self, pos: u16, data: u16)
        requires
            old(self).wf(),
        ensures
            final(self).wf(),
            final(self)@ == old(self)@.update(pos as int, (data % 0x100) as u8).update(
                wrap16(pos + 1) as int,
                (data / 0x100) as u8,
            ),
            word_at(final(self)@, pos) == data,
    {
        let lo: u8 = (data % 0x100) as u8;
        let hi: u8 = (data / 0x100) as u8;
        self.write(pos, lo);
        self.write(pos.wrapping_add(1), hi);
        proof {
            assert(wrap16(pos + 1) != pos as int) by {
                assert((pos + 1) % 0x10000 != pos as int) by (nonlinear_arith);
            };
        }
    }

    /// Resolve `mode` to the effective address the next instruction operates
    /// on, reading its operand bytes at the program counter. `NoneAddressing`
    /// never reaches the resolver: an operation tagged with it is a wiring
    /// bug, excluded by the precondition.
    #[verifier::rlimit(30)]
    pub fn translate(&self, mode: &AddressingMode, cpu: &CPU) -> (addr: u16)
        requires
            self.wf(),
            !(*mode is NoneAddressing),
        ensures
            addr == ea_spec(*mode, self@, cpu.pc.0, cpu.rx.0, cpu.ry.0),
    {
        let pc: u16 = cpu.pc.0;
        match mode {
            AddressingMode::Immediate => pc,
            AddressingMode::ZeroPage => self.read(pc) as u16,
            AddressingMode::ZeroPage_X => {
                let pos = self.read(pc);
                pos.wrapping_add(cpu.rx.0) as u16
            },
            AddressingMode::ZeroPage_Y => {
                let pos = self.read(pc);
                pos.wrapping_add(cpu.ry.0) as u16
            },
            AddressingMode::Absolute => self.read_u16(pc),
            AddressingMode::Absolute_X => {
                let base = self.read_u16(pc);
                base.wrapping_add(cpu.rx.0 as u16)
            },
            AddressingMode::Absolute_Y => {
                let base = self.read_u16(pc);
                base.wrapping_add(cpu.ry.0 as u16)
            },
            AddressingMode::Indirect_X => {
                let base = self.read(pc);
                let ptr: u8 = base.wrapping_add(cpu.rx.0);
                let lo = self.read(ptr as u16);
                let hi = self.read(ptr.wrapping_add(1) as u16);
                lo as u16 + hi as u16 * 0x100
            },
            AddressingMode::Indirect_Y => {
                let base = self.read(pc);
                let lo = self.read(base as u16);
                let hi = self.read(base.wrapping_add(1) as u16);
                let deref_base = lo as u16 + hi as u16 * 0x100;
                deref_base.wrapping_add(cpu.ry.0 as u16)
            },
            AddressingMode::NoneAddressing => {
                proof {
                    assert(false);
                }
                0
            },
        }
    }
}

} // verus!
