//! The register file: eight 8-bit registers A, B, C, D, E, H, L and the flag
//! register F, with 16-bit overlay pairs AF, BC, DE and HL. A pair reads as
//! high byte times 256 plus low byte; writing a pair splits the word the same
//! way. Writes to AF mask the low nibble of F, because F holds only four
//! flag bits.

use vstd::prelude::*;
use crate::flags_register::FlagsRegister;
use crate::flags_register::spec_flags_to_byte;
use crate::flags_register::spec_flags_from_byte;

verus! {

#[derive(Copy, Clone, PartialEq, Eq, Structural, Debug)]
pub struct Registers {
    pub a: u8,
    pub b: u8,
    pub c: u8,
    pub d: u8,
    pub e: u8,
    pub f: FlagsRegister,
    pub h: u8,
    pub l: u8,
}

/// The 16-bit word formed by a register pair: high byte in the upper eight
/// bits, low byte in the lower eight.
pub open spec fn spec_pair(high: u8, low: u8) -> u16 {
    (high * 256 + low) as u16
}

/// The high byte of a 16-bit word.
pub open spec fn spec_high_byte(value: u16) -> u8 {
    (value / 256) as u8
}

/// The low byte of a 16-bit word.
pub open spec fn spec_low_byte(value: u16) -> u8 {
    (value % 256) as u8
}

impl Registers {
    /// All registers zero and all flags cleared.
    pub fn new() -> (r: Registers)
        ensures
            r == (Registers {
                a: 0u8,
                b: 0u8,
                c: 0u8,
                d: 0u8,
                e: 0u8,
                f: FlagsRegister { zero: false, subtract: false, half_carry: false, carry: false },
                h: 0u8,
                l: 0u8,
            }),
    {
        Registers {
            a: 0,
            b: 0,
            c: 0,
            d: 0,
            e: 0,
            f: FlagsRegister::new(),
            h: 0,
            l: 0,
        }
    }

    /// AF reads as A over the packed flag byte; its low nibble is zero.
    pub fn get_af(&self) -> (r: u16)
        ensures
            r == spec_pair(self.a, spec_flags_to_byte(self.f)),
    {
        let f_byte = self.f.to_byte();
        self.a as u16 * 256 + f_byte as u16
    }

    /// Writing AF sets A from the high byte and unpacks the low byte into the
    /// flags, which drops the low nibble.
    pub fn set_af(&mut self, value: u16)
        ensures
            final(self).a == spec_high_byte(value),
            final(self).f == spec_flags_from_byte(spec_low_byte(value)),
            final(self).b == old(self).b,
            final(self).c == old(self).c,
            final(self).d == old(self).d,
            final(self).e == old(self).e,
            final(self).h == old(self).h,
            final(self).l == old(self).l,
    {
        self.a = (value / 256) as u8;
        self.f = FlagsRegister::from_byte((value % 256) as u8);
    }

    pub fn get_bc(&self) -> (r: u16)
        ensures
            r == spec_pair(self.b, self.c),
    {
        self.b as u16 * 256 + self.c as u16
    }

    pub fn set_bc(&mut self, value: u16)
        ensures
            *final(self) == (Registers {
                b: spec_high_byte(value),
                c: spec_low_byte(value),
                ..*old(self)
            }),
    {
        self.b = (value / 256) as u8;
        self.c = (value % 256) as u8;
    }

    pub fn get_de(&self) -> (r: u16)
        ensures
            r == spec_pair(self.d, self.e),
    {
        self.d as u16 * 256 + self.e as u16
    }

    pub fn set_de(&mut self, value: u16)
        ensures
            *final(self) == (Registers {
                d: spec_high_byte(value),
                e: spec_low_byte(value),
                ..*old(self)
            }),
    {
        self.d = (value / 256) as u8;
        self.e = (value % 256) as u8;
    }

    pub fn get_hl(&self) -> (r: u16)
        ensures
            r == spec_pair(self.h, self.l),
    {
        self.h as u16 * 256 + self.l as u16
    }

    pub fn set_hl(&mut self, value: u16)
        ensures
            *final(self) == (Registers {
                h: spec_high_byte(value),
                l: spec_low_byte(value),
                ..*old(self)
            }),
    {
        self.h = (value / 256) as u8;
        self.l = (value % 256) as u8;
    }
}

} // verus!
