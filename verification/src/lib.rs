//! Core of a DMG-class handheld emulator: an 8-bit CPU with a 16-bit address
//! space, a memory bus with memory-mapped I/O, a scanline pixel pipeline, a
//! programmable timer with a free-running divider, and a level-triggered
//! interrupt controller, all driven by a shared T-cycle clock.

pub mod flags_register;
pub mod registers;
pub mod interrupts;
pub mod timer;
pub mod joypad;
pub mod instruction;
pub mod gpu;
pub mod memory_bus;
pub mod cpu;
pub mod laws;
