//! The register file: accumulator, index registers, status flags and the
//! program counter, together with the bit-level model of the status byte.

use vstd::prelude::*;

verus! {

/// True iff bit `n` of `v` is set.
pub open spec fn bit_of(v: u8, n: u8) -> bool
    recommends
        n < 8,
{
    v & (1u8 << n) != 0
}

/// The status byte with the bits of `mask` forced to `on`.
pub open spec fn with_flag(st: u8, mask: u8, on: bool) -> u8 {
    if on {
        st | mask
    } else {
        st & !mask
    }
}

/// True iff any bit of `mask` is set in `st`.
pub open spec fn flag_on(st: u8, mask: u8) -> bool {
    st & mask != 0
}

/// The status byte after an instruction wrote the value `v` to a register:
/// Zero reflects `v == 0`, Negative reflects bit 7 of `v`, all other bits
/// keep their old value.
pub open spec fn flags_zn(st: u8, v: u8) -> u8 {
    with_flag(with_flag(st, Status::ZERO, v == 0), Status::NEGATIVE, bit_of(v, 7))
}

/// 16-bit wraparound, as the address bus performs it.
pub open spec fn wrap16(x: int) -> u16 {
    (x % 0x10000) as u16
}

/// 8-bit wraparound, as zero-page index arithmetic performs it.
pub open spec fn wrap8(x: int) -> u8 {
    (x % 0x100) as u8
}

/// The 8-bit accumulator.
pub struct Accumulator(pub u8);

impl Accumulator {
    pub fn is_zero(&self) -> (r: bool)
        ensures
            r == (self.0 == 0),
    {
        self.0 == 0
    }

    pub fn is_set(&self, n: u8) -> (r: bool)
        requires
            n < 8,
        ensures
            r == bit_of(self.0, n),
    {
        let bit: u8 = 1u8 << n;
        self.0 & bit != 0
    }

    pub fn load(&mut self, v: u8)
        ensures
            final(self).0 == v,
    {
        self.0 = v;
    }

    pub fn reset(&mut self)
        ensures
            final(self).0 == 0,
    {
        self.0 = 0;
    }
}

/// The 8-bit X index register.
pub struct RegisterX(pub u8);

impl RegisterX {
    pub fn reset(&mut self)
        ensures
            final(self).0 == 0,
    {
        self.0 = 0;
    }
}

/// The 8-bit Y index register.
pub struct RegisterY(pub u8);

impl RegisterY {
    pub fn reset(&mut self)
        ensures
            final(self).0 == 0,
    {
        self.0 = 0;
    }
}

/// The status register: an 8-bit set of condition flags.
pub struct Status(pub u8);

impl Status {
    pub const CARRY: u8 = 0b0000_0001;

    pub const ZERO: u8 = 0b0000_0010;

    pub const INTERRUPT_DISABLE: u8 = 0b0000_0100;

    pub const DECIMAL_MODE: u8 = 0b0000_1000;

    pub const BREAK: u8 = 0b0001_0000;

    pub const BREAK2: u8 = 0b0010_0000;

    pub const OVERFLOW: u8 = 0b0100_0000;

    pub const NEGATIVE: u8 = 0b1000_0000;

    /// Force the bits of `mask` to `on`, leaving every other bit alone.
    pub fn set(&mut self, mask: u8, on: bool)
        ensures
            final(self).0 == with_flag(old(self).0, mask, on),
    {
        if on {
            self.0 = self.0 | mask;
        } else {
            self.0 = self.0 & !mask;
        }
    }

    /// The raw flag byte.
    pub fn bits(&self) -> (r: u8)
        ensures
            r == self.0,
    {
        self.0
    }

    /// True iff every bit of `mask` is set.
    pub fn contains(&self, mask: u8) -> (r: bool)
        ensures
            r == (self.0 & mask == mask),
    {
        self.0 & mask == mask
    }

    pub fn reset(&mut self)
        ensures
            final(self).0 == 0,
    {
        self.0 = 0;
    }
}

/// The 16-bit program counter.
pub struct ProgramCounter(pub u16);

impl ProgramCounter {
    /// Advance past one fetched byte, wrapping at the top of the address
    /// space.
    pub fn step(&mut self)
        ensures
            final(self).0 == wrap16(old(self).0 + 1),
    {
        self.step_n(1);
    }

    /// Advance past `n` bytes, wrapping at the top of the address space.
    pub fn step_n(&mut self, n: u16)
        ensures
            final(self).0 == wrap16(old(self).0 + n),
    {
        self.0 = self.0.wrapping_add(n);
    }

    /// Return to the reset-vector location.
    pub fn reset(&mut self)
        ensures
            final(self).0 == 0xFFFC,
    {
        self.0 = 0xFFFC;
    }
}

} // verus!
