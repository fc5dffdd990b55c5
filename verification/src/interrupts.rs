//! Interrupt state: a five-bit vector with named bits for V-blank, LCD
//! status, timer, serial transfer and joypad. The same shape serves both as
//! the enable register IE (at 0xFFFF) and the pending register IF (at
//! 0xFF0F). When read as a byte the three high bits are always one.

use vstd::prelude::*;

verus! {

/// The five interrupt vectors, in dispatch priority order: V-blank is
/// highest, joypad lowest.
#[derive(Copy, Clone, PartialEq, Eq, Structural, Debug)]
pub enum InterruptLocation {
    VBlank,
    LCD,
    Timer,
    Serial,
    Joypad,
}

/// The fixed address the CPU jumps to when a vector is dispatched.
pub open spec fn spec_interrupt_address(location: InterruptLocation) -> u16 {
    match location {
        InterruptLocation::VBlank => 0x40,
        InterruptLocation::LCD => 0x48,
        InterruptLocation::Timer => 0x50,
        InterruptLocation::Serial => 0x58,
        InterruptLocation::Joypad => 0x60,
    }
}

impl InterruptLocation {
    /// The vector table entry: 0x40 for V-blank, then every eight bytes.
    pub fn address(self) -> (r: u16)
        ensures
            r == spec_interrupt_address(self),
    {
        match self {
            InterruptLocation::VBlank => 0x40,
            InterruptLocation::LCD => 0x48,
            InterruptLocation::Timer => 0x50,
            InterruptLocation::Serial => 0x58,
            InterruptLocation::Joypad => 0x60,
        }
    }
}

#[derive(Copy, Clone, PartialEq, Eq, Structural, Debug)]
pub struct Interrupts {
    pub vertical_blank: bool,
    pub lcd_c: bool,
    pub timer: bool,
    pub serial_transfer: bool,
    pub joypad: bool,
}

/// The five bits a byte unpacks to: V-blank at bit 0 up to joypad at bit 4.
pub open spec fn spec_interrupts_from_byte(byte: u8) -> Interrupts {
    Interrupts {
        vertical_blank: byte % 2 == 1,
        lcd_c: (byte / 2) % 2 == 1,
        timer: (byte / 4) % 2 == 1,
        serial_transfer: (byte / 8) % 2 == 1,
        joypad: (byte / 16) % 2 == 1,
    }
}

/// The byte the five bits read as: the three high bits are one, V-blank is
/// bit 0 up to joypad at bit 4.
pub open spec fn spec_interrupts_to_byte(i: Interrupts) -> u8 {
    (224int + (if i.vertical_blank { 1int } else { 0int }) + (if i.lcd_c { 2int } else { 0int })
        + (if i.timer { 4int } else { 0int }) + (if i.serial_transfer { 8int } else { 0int })
        + (if i.joypad { 16int } else { 0int })) as u8
}

/// Whether any of the five bits is set.
pub open spec fn spec_interrupts_any(i: Interrupts) -> bool {
    i.vertical_blank || i.lcd_c || i.timer || i.serial_transfer || i.joypad
}

impl Interrupts {
    /// All five bits cleared.
    pub fn new() -> (r: Interrupts)
        ensures
            r == (Interrupts {
                vertical_blank: false,
                lcd_c: false,
                timer: false,
                serial_transfer: false,
                joypad: false,
            }),
    {
        Interrupts {
            vertical_blank: false,
            lcd_c: false,
            timer: false,
            serial_transfer: false,
            joypad: false,
        }
    }

    /// Replace the five bits with the low five bits of a byte.
    pub fn from_byte(&mut self, byte: u8)
        ensures
            *final(self) == spec_interrupts_from_byte(byte),
    {
        self.vertical_blank = byte % 2 == 1;
        self.lcd_c = (byte / 2) % 2 == 1;
        self.timer = (byte / 4) % 2 == 1;
        self.serial_transfer = (byte / 8) % 2 == 1;
        self.joypad = (byte / 16) % 2 == 1;
    }

    /// Whether any of the five bits is set.
    pub fn any(&self) -> (r: bool)
        ensures
            r == spec_interrupts_any(*self),
    {
        self.vertical_blank || self.lcd_c || self.timer || self.serial_transfer || self.joypad
    }

    /// Read the five bits as a byte; the high three bits read as one.
    pub fn to_byte(&self) -> (r: u8)
        ensures
            r == spec_interrupts_to_byte(*self),
    {
        224u8 + (if self.vertical_blank { 1u8 } else { 0u8 }) + (if self.lcd_c { 2u8 } else { 0u8 })
            + (if self.timer { 4u8 } else { 0u8 })
            + (if self.serial_transfer { 8u8 } else { 0u8 })
            + (if self.joypad { 16u8 } else { 0u8 })
    }
}

} // verus!
