//! The F register: four boolean flags packed into the high nibble of a byte.
//! Z (zero) sits at bit 7, N (subtract) at bit 6, H (half-carry) at bit 5 and
//! C (carry) at bit 4; bits 3..0 always read as zero.

use vstd::prelude::*;

verus! {

#[derive(Copy, Clone, PartialEq, Eq, Structural, Debug)]
pub struct FlagsRegister {
    pub zero: bool,
    pub subtract: bool,
    pub half_carry: bool,
    pub carry: bool,
}

/// The byte a flag register reads as: each flag contributes its bit weight,
/// and the low nibble is zero.
pub open spec fn spec_flags_to_byte(f: FlagsRegister) -> u8 {
    ((if f.zero { 128int } else { 0int }) + (if f.subtract { 64int } else { 0int })
        + (if f.half_carry { 32int } else { 0int }) + (if f.carry { 16int } else { 0int })) as u8
}

/// The flags a byte unpacks to: each flag is the bit at its weight; the low
/// nibble is ignored.
pub open spec fn spec_flags_from_byte(byte: u8) -> FlagsRegister {
    FlagsRegister {
        zero: (byte / 128) % 2 == 1,
        subtract: (byte / 64) % 2 == 1,
        half_carry: (byte / 32) % 2 == 1,
        carry: (byte / 16) % 2 == 1,
    }
}

impl FlagsRegister {
    /// All four flags cleared.
    pub fn new() -> (r: FlagsRegister)
        ensures
            r == (FlagsRegister { zero: false, subtract: false, half_carry: false, carry: false }),
    {
        FlagsRegister { zero: false, subtract: false, half_carry: false, carry: false }
    }

    /// Pack the four flags into a byte, Z at bit 7 down to C at bit 4.
    pub fn to_byte(self) -> (r: u8)
        ensures
            r == spec_flags_to_byte(self),
    {
        (if self.zero { 128u8 } else { 0u8 }) + (if self.subtract { 64u8 } else { 0u8 })
            + (if self.half_carry { 32u8 } else { 0u8 }) + (if self.carry { 16u8 } else { 0u8 })
    }

    /// Unpack a byte into the four flags, ignoring its low nibble.
    pub fn from_byte(byte: u8) -> (r: FlagsRegister)
        ensures
            r == spec_flags_from_byte(byte),
    {
        FlagsRegister {
            zero: (byte / 128) % 2 == 1,
            subtract: (byte / 64) % 2 == 1,
            half_carry: (byte / 32) % 2 == 1,
            carry: (byte / 16) % 2 == 1,
        }
    }
}

} // verus!
