//! The input latch: eight held-key bits and a column selector. Reading the
//! latch yields the selected column's keys in the low nibble, active low,
//! with the column's own tag bit set above them. The driver clears the latch
//! once per frame and sets the bits for the keys currently held.

use vstd::prelude::*;

verus! {

#[derive(Copy, Clone, PartialEq, Eq, Structural, Debug)]
pub struct Joypad {
    pub column: bool,
    pub up: bool,
    pub down: bool,
    pub left: bool,
    pub right: bool,
    pub a: bool,
    pub b: bool,
    pub select: bool,
    pub start: bool,
}

/// The byte a poll of the latch reads: with the column selector set it is the
/// button column (bit 5 set; start, select, B, A active low in bits 3..0),
/// otherwise the direction column (bit 4 set; down, up, left, right active
/// low in bits 3..0).
pub open spec fn spec_joypad_poll(j: Joypad) -> u8 {
    if j.column {
        (32int + (if j.start { 0int } else { 8int }) + (if j.select { 0int } else { 4int })
            + (if j.b { 0int } else { 2int }) + (if j.a { 0int } else { 1int })) as u8
    } else {
        (16int + (if j.down { 0int } else { 8int }) + (if j.up { 0int } else { 4int })
            + (if j.left { 0int } else { 2int }) + (if j.right { 0int } else { 1int })) as u8
    }
}

impl Joypad {
    /// No key held and the direction column selected.
    pub fn new() -> (r: Joypad)
        ensures
            r == (Joypad {
                column: false,
                up: false,
                down: false,
                left: false,
                right: false,
                a: false,
                b: false,
                select: false,
                start: false,
            }),
    {
        Joypad {
            column: false,
            up: false,
            down: false,
            left: false,
            right: false,
            a: false,
            b: false,
            select: false,
            start: false,
        }
    }

    /// Read the selected column, active low.
    pub fn poll(&self) -> (r: u8)
        ensures
            r == spec_joypad_poll(*self),
    {
        if self.column {
            32u8 + (if self.start { 0u8 } else { 8u8 }) + (if self.select { 0u8 } else { 4u8 })
                + (if self.b { 0u8 } else { 2u8 }) + (if self.a { 0u8 } else { 1u8 })
        } else {
            16u8 + (if self.down { 0u8 } else { 8u8 }) + (if self.up { 0u8 } else { 4u8 })
                + (if self.left { 0u8 } else { 2u8 }) + (if self.right { 0u8 } else { 1u8 })
        }
    }

    /// Release every key; the column selector is kept.
    pub fn reset(&mut self)
        ensures
            *final(self) == (Joypad { column: old(self).column, ..Joypad {
                column: false,
                up: false,
                down: false,
                left: false,
                right: false,
                a: false,
                b: false,
                select: false,
                start: false,
            } }),
    {
        self.up = false;
        self.down = false;
        self.left = false;
        self.right = false;
        self.a = false;
        self.b = false;
        self.select = false;
        self.start = false;
    }

    pub fn up(&mut self)
        ensures
            *final(self) == (Joypad { up: true, ..*old(self) }),
    {
        self.up = true;
    }

    pub fn down(&mut self)
        ensures
            *final(self) == (Joypad { down: true, ..*old(self) }),
    {
        self.down = true;
    }

    pub fn left(&mut self)
        ensures
            *final(self) == (Joypad { left: true, ..*old(self) }),
    {
        self.left = true;
    }

    pub fn right(&mut self)
        ensures
            *final(self) == (Joypad { right: true, ..*old(self) }),
    {
        self.right = true;
    }

    pub fn a(&mut self)
        ensures
            *final(self) == (Joypad { a: true, ..*old(self) }),
    {
        self.a = true;
    }

    pub fn b(&mut self)
        ensures
            *final(self) == (Joypad { b: true, ..*old(self) }),
    {
        self.b = true;
    }

    pub fn select(&mut self)
        ensures
            *final(self) == (Joypad { select: true, ..*old(self) }),
    {
        self.select = true;
    }

    pub fn start(&mut self)
        ensures
            *final(self) == (Joypad { start: true, ..*old(self) }),
    {
        self.start = true;
    }
}

} // verus!
