//! The CPU core: fetch, decode, execute and dispatch. Each step runs one
//! instruction to completion, ticks the bus by the instruction's cycle cost,
//! and then services at most one pending, enabled interrupt. The arithmetic
//! helpers carry exact contracts for every result byte and every flag bit;
//! the dispatcher's contract pins the program counter, the cycle cost and
//! the whole control state of every instruction.

use vstd::prelude::*;
use crate::flags_register::FlagsRegister;
use crate::registers::Registers;
use crate::registers::spec_pair;
use crate::registers::spec_high_byte;
use crate::registers::spec_low_byte;
use crate::instruction::Instruction;
use crate::instruction::ArithmeticHLTarget;
use crate::instruction::ArithmeticTarget;
use crate::instruction::BitPosition;
use crate::instruction::IncDecTarget;
use crate::instruction::Indirect;
use crate::instruction::JumpTest;
use crate::instruction::LoadByteSource;
use crate::instruction::LoadByteTarget;
use crate::instruction::LoadType;
use crate::instruction::LoadWordTarget;
use crate::instruction::PrefixTarget;
use crate::instruction::RestartOffset;
use crate::instruction::StackTarget;
use crate::instruction::spec_bit_index;
use crate::instruction::spec_decode;
use crate::instruction::spec_restart_address;
use crate::interrupts::InterruptLocation;
use crate::interrupts::spec_interrupt_address;
use crate::interrupts::Interrupts;
use crate::interrupts::spec_interrupts_any;
use crate::memory_bus::MemoryBus;
use crate::memory_bus::BusV;
use crate::memory_bus::spec_read_byte;
use crate::memory_bus::spec_write_byte;
use crate::memory_bus::spec_bus_step;
use crate::memory_bus::spec_interrupted;
use crate::memory_bus::lemma_write_byte_well_formed;
use crate::memory_bus::BOOT_ROM_SIZE;

verus! {

pub struct CPU {
    pub is_halted: bool,
    /// The master interrupt enable, IME.
    pub interrupt_enabled: bool,
    /// Set by EI: the enable becomes effective only after the following
    /// instruction completes, so the step that ran EI skips dispatch once.
    pub interrupt_enable_pending: bool,
    pub pc: u16,
    pub sp: u16,
    pub registers: Registers,
    pub bus: MemoryBus,
}


/// The mathematical view of the core: the same fields, with the bus
/// abstracted to its own view.
pub ghost struct CpuV {
    pub is_halted: bool,
    pub interrupt_enabled: bool,
    pub interrupt_enable_pending: bool,
    pub pc: u16,
    pub sp: u16,
    pub registers: Registers,
    pub bus: BusV,
}

impl View for CPU {
    type V = CpuV;

    open spec fn view(&self) -> CpuV {
        CpuV {
            is_halted: self.is_halted,
            interrupt_enabled: self.interrupt_enabled,
            interrupt_enable_pending: self.interrupt_enable_pending,
            pc: self.pc,
            sp: self.sp,
            registers: self.registers,
            bus: self.bus@,
        }
    }
}

/// Whether a branch condition holds under the given flags.
pub open spec fn spec_jump_taken(f: FlagsRegister, test: JumpTest) -> bool {
    match test {
        JumpTest::NotZero => !f.zero,
        JumpTest::Zero => f.zero,
        JumpTest::NotCarry => !f.carry,
        JumpTest::Carry => f.carry,
        JumpTest::Always => true,
    }
}

/// A 16-bit address plus an offset, wrapping.
pub open spec fn spec_wrap16(x: int) -> u16 {
    (x % 0x10000) as u16
}

/// The little-endian word at an address: low byte first.
pub open spec fn spec_read_word(b: BusV, address: u16) -> u16 {
    (spec_read_byte(b, spec_wrap16(address + 1)) * 256 + spec_read_byte(b, address)) as u16
}

/// The word a POP yields: low byte at SP, high byte above it.
pub open spec fn spec_pop_value(b: BusV, sp: u16) -> u16 {
    (spec_read_byte(b, spec_wrap16(sp + 1)) * 256 + spec_read_byte(b, sp)) as u16
}

/// The bus after a word is pushed: SP moves down twice, the high byte lands
/// first at SP minus one and the low byte below it.
pub open spec fn spec_push(b: BusV, sp: u16, value: u16) -> BusV {
    spec_write_byte(
        spec_write_byte(b, spec_wrap16(sp - 1), spec_high_byte(value)),
        spec_wrap16(sp - 2),
        spec_low_byte(value),
    )
}

/// The signed value of a displacement byte.
pub open spec fn spec_signed(byte: u8) -> int {
    if byte < 128 {
        byte as int
    } else {
        byte - 256
    }
}

/// Everything an arithmetic helper leaves alone: all state but the flag
/// register.
pub open spec fn spec_same_but_flags(pre: CPU, post: CPU) -> bool {
    &&& post.pc == pre.pc
    &&& post.sp == pre.sp
    &&& post.is_halted == pre.is_halted
    &&& post.interrupt_enabled == pre.interrupt_enabled
    &&& post.interrupt_enable_pending == pre.interrupt_enable_pending
    &&& post.bus == pre.bus
    &&& post.registers.a == pre.registers.a
    &&& post.registers.b == pre.registers.b
    &&& post.registers.c == pre.registers.c
    &&& post.registers.d == pre.registers.d
    &&& post.registers.e == pre.registers.e
    &&& post.registers.h == pre.registers.h
    &&& post.registers.l == pre.registers.l
}


/// A flag register built from its four bits.
pub open spec fn spec_flags(zero: bool, subtract: bool, half_carry: bool, carry: bool) -> FlagsRegister {
    FlagsRegister { zero, subtract, half_carry, carry }
}

/// The HL pair of a core state.
pub open spec fn spec_hl(s: CpuV) -> u16 {
    spec_pair(s.registers.h, s.registers.l)
}

/// The operand an arithmetic instruction reads: a register, the immediate
/// byte, or the byte HL points at.
pub open spec fn spec_arith_operand(s: CpuV, target: ArithmeticTarget) -> u8 {
    match target {
        ArithmeticTarget::A => s.registers.a,
        ArithmeticTarget::B => s.registers.b,
        ArithmeticTarget::C => s.registers.c,
        ArithmeticTarget::D => s.registers.d,
        ArithmeticTarget::E => s.registers.e,
        ArithmeticTarget::H => s.registers.h,
        ArithmeticTarget::L => s.registers.l,
        ArithmeticTarget::D8 => spec_read_byte(s.bus, spec_wrap16(s.pc + 1)),
        ArithmeticTarget::HLI => spec_read_byte(s.bus, spec_hl(s)),
    }
}

/// The operand a prefixed instruction reads.
pub open spec fn spec_prefix_operand(s: CpuV, target: PrefixTarget) -> u8 {
    match target {
        PrefixTarget::A => s.registers.a,
        PrefixTarget::B => s.registers.b,
        PrefixTarget::C => s.registers.c,
        PrefixTarget::D => s.registers.d,
        PrefixTarget::E => s.registers.e,
        PrefixTarget::H => s.registers.h,
        PrefixTarget::L => s.registers.l,
        PrefixTarget::HLI => spec_read_byte(s.bus, spec_hl(s)),
    }
}

/// A core state with its flag register replaced.
pub open spec fn spec_with_flags(s: CpuV, f: FlagsRegister) -> CpuV {
    CpuV { registers: Registers { f, ..s.registers }, ..s }
}

/// The state after a prefixed instruction's result lands back in its
/// operand: a register, or the byte HL points at.
#[verifier::opaque]
pub open spec fn spec_prefix_store(s: CpuV, target: PrefixTarget, value: u8) -> CpuV {
    match target {
        PrefixTarget::A => CpuV { registers: Registers { a: value, ..s.registers }, ..s },
        PrefixTarget::B => CpuV { registers: Registers { b: value, ..s.registers }, ..s },
        PrefixTarget::C => CpuV { registers: Registers { c: value, ..s.registers }, ..s },
        PrefixTarget::D => CpuV { registers: Registers { d: value, ..s.registers }, ..s },
        PrefixTarget::E => CpuV { registers: Registers { e: value, ..s.registers }, ..s },
        PrefixTarget::H => CpuV { registers: Registers { h: value, ..s.registers }, ..s },
        PrefixTarget::L => CpuV { registers: Registers { l: value, ..s.registers }, ..s },
        PrefixTarget::HLI => CpuV { bus: spec_write_byte(s.bus, spec_hl(s), value), ..s },
    }
}

/// The miscellaneous one-byte instructions: no-op, the halting pair, the
/// interrupt-enable moves, the accumulator rotates, complement, the carry
/// flag instructions and decimal adjust.
#[verifier::opaque]
pub open spec fn spec_exec_misc(s: CpuV, i: Instruction) -> (CpuV, u16, u16) {
    let pc1 = spec_wrap16(s.pc + 1);
    let a = s.registers.a;
    let f = s.registers.f;
    match i {
        Instruction::HALT => (CpuV { is_halted: true, ..s }, pc1, 4),
        Instruction::STOP => (CpuV { is_halted: true, ..s }, pc1, 4),
        Instruction::EI => (
            CpuV { interrupt_enabled: true, interrupt_enable_pending: true, ..s },
            pc1,
            4,
        ),
        Instruction::DI => (CpuV { interrupt_enabled: false, ..s }, pc1, 4),
        Instruction::RETI => (
            CpuV { sp: spec_wrap16(s.sp + 2), interrupt_enabled: true, ..s },
            spec_pop_value(s.bus, s.sp),
            16,
        ),
        Instruction::CCF => (
            CpuV {
                registers: Registers {
                    f: spec_flags(f.zero, false, false, !f.carry),
                    ..s.registers
                },
                ..s
            },
            pc1,
            4,
        ),
        Instruction::SCF => (
            CpuV {
                registers: Registers { f: spec_flags(f.zero, false, false, true), ..s.registers },
                ..s
            },
            pc1,
            4,
        ),
        Instruction::RRA => (
            CpuV {
                registers: Registers {
                    a: ((if f.carry {
                        128int
                    } else {
                        0int
                    }) + a / 2) as u8,
                    f: spec_flags(false, false, false, a % 2 == 1),
                    ..s.registers
                },
                ..s
            },
            pc1,
            4,
        ),
        Instruction::RLA => (
            CpuV {
                registers: Registers {
                    a: ((a % 128) * 2 + (if f.carry {
                        1int
                    } else {
                        0int
                    })) as u8,
                    f: spec_flags(false, false, false, a >= 128),
                    ..s.registers
                },
                ..s
            },
            pc1,
            4,
        ),
        Instruction::RRCA => (
            CpuV {
                registers: Registers {
                    a: ((a % 2) * 128 + a / 2) as u8,
                    f: spec_flags(false, false, false, a % 2 == 1),
                    ..s.registers
                },
                ..s
            },
            pc1,
            4,
        ),
        Instruction::RLCA => (
            CpuV {
                registers: Registers {
                    a: ((a % 128) * 2 + a / 128) as u8,
                    f: spec_flags(false, false, false, a >= 128),
                    ..s.registers
                },
                ..s
            },
            pc1,
            4,
        ),
        Instruction::CPL => (
            CpuV {
                registers: Registers {
                    a: !a,
                    f: spec_flags(f.zero, true, true, f.carry),
                    ..s.registers
                },
                ..s
            },
            pc1,
            4,
        ),
        Instruction::DAA => {
            let adjusted = spec_decimal_adjust(f, a);
            (
                CpuV {
                    registers: Registers {
                        a: adjusted.0,
                        f: spec_flags(adjusted.0 == 0, f.subtract, false, adjusted.1),
                        ..s.registers
                    },
                    ..s
                },
                pc1,
                4,
            )
        },
        _ => (s, pc1, 4),
    }
}

/// The stack instructions: push, pop, restart, call and return.
#[verifier::opaque]
pub open spec fn spec_exec_stack(s: CpuV, i: Instruction) -> (CpuV, u16, u16) {
    let pc1 = spec_wrap16(s.pc + 1);
    match i {
        Instruction::RST(offset) => (
            CpuV {
                sp: spec_wrap16(s.sp - 2),
                bus: spec_push(s.bus, s.sp, spec_wrap16(s.pc + 1)),
                ..s
            },
            spec_restart_address(offset),
            16,
        ),
        Instruction::PUSH(target) => {
            let value = match target {
                StackTarget::AF => spec_pair(
                    s.registers.a,
                    crate::flags_register::spec_flags_to_byte(s.registers.f),
                ),
                StackTarget::BC => spec_pair(s.registers.b, s.registers.c),
                StackTarget::DE => spec_pair(s.registers.d, s.registers.e),
                StackTarget::HL => spec_pair(s.registers.h, s.registers.l),
            };
            (
                CpuV { sp: spec_wrap16(s.sp - 2), bus: spec_push(s.bus, s.sp, value), ..s },
                pc1,
                16,
            )
        },
        Instruction::POP(target) => {
            let value = spec_pop_value(s.bus, s.sp);
            let registers = match target {
                StackTarget::AF => Registers {
                    a: spec_high_byte(value),
                    f: crate::flags_register::spec_flags_from_byte(spec_low_byte(value)),
                    ..s.registers
                },
                StackTarget::BC => Registers {
                    b: spec_high_byte(value),
                    c: spec_low_byte(value),
                    ..s.registers
                },
                StackTarget::DE => Registers {
                    d: spec_high_byte(value),
                    e: spec_low_byte(value),
                    ..s.registers
                },
                StackTarget::HL => Registers {
                    h: spec_high_byte(value),
                    l: spec_low_byte(value),
                    ..s.registers
                },
            };
            (CpuV { sp: spec_wrap16(s.sp + 2), registers, ..s }, pc1, 12)
        },
        Instruction::CALL(test) => if spec_jump_taken(s.registers.f, test) {
            (
                CpuV {
                    sp: spec_wrap16(s.sp - 2),
                    bus: spec_push(s.bus, s.sp, spec_wrap16(s.pc + 3)),
                    ..s
                },
                spec_read_word(s.bus, spec_wrap16(s.pc + 1)),
                24,
            )
        } else {
            (s, spec_wrap16(s.pc + 3), 12)
        },
        Instruction::RET(test) => if spec_jump_taken(s.registers.f, test) {
            (
                CpuV { sp: spec_wrap16(s.sp + 2), ..s },
                spec_pop_value(s.bus, s.sp),
                if test == JumpTest::Always {
                    16
                } else {
                    20
                },
            )
        } else {
            (s, pc1, 8)
        },
        _ => (s, pc1, 4),
    }
}

/// The jump instructions: absolute, relative and jump-to-HL. None of them
/// changes any state; the branch decision reads the pre-instruction flags.
#[verifier::opaque]
pub open spec fn spec_exec_jump(s: CpuV, i: Instruction) -> (CpuV, u16, u16) {
    match i {
        Instruction::JP(test) => if spec_jump_taken(s.registers.f, test) {
            (s, spec_read_word(s.bus, spec_wrap16(s.pc + 1)), 16)
        } else {
            (s, spec_wrap16(s.pc + 3), 12)
        },
        Instruction::JR(test) => if spec_jump_taken(s.registers.f, test) {
            (
                s,
                spec_wrap16(
                    spec_wrap16(s.pc + 2) + spec_signed(
                        spec_read_byte(s.bus, spec_wrap16(s.pc + 1)),
                    ),
                ),
                12,
            )
        } else {
            (s, spec_wrap16(s.pc + 2), 8)
        },
        Instruction::JPHL => (s, spec_hl(s), 4),
        _ => (s, spec_wrap16(s.pc + 1), 4),
    }
}


/// The eight-operand accumulator arithmetic: add, add with carry,
/// subtract, subtract with carry, the three bitwise operations and
/// compare.
#[verifier::opaque]
pub open spec fn spec_exec_arithmetic(s: CpuV, i: Instruction) -> (CpuV, u16, u16) {
    let target = match i {
        Instruction::ADD(t) => t,
        Instruction::ADC(t) => t,
        Instruction::SUB(t) => t,
        Instruction::SBC(t) => t,
        Instruction::AND(t) => t,
        Instruction::OR(t) => t,
        Instruction::XOR(t) => t,
        Instruction::CP(t) => t,
        _ => ArithmeticTarget::A,
    };
    let v = spec_arith_operand(s, target);
    let a = s.registers.a;
    let f = s.registers.f;
    let carry_in: int = if f.carry {
        1
    } else {
        0
    };
    let next_pc = if target == ArithmeticTarget::D8 {
        spec_wrap16(s.pc + 2)
    } else {
        spec_wrap16(s.pc + 1)
    };
    let cycles: u16 = if target == ArithmeticTarget::D8 || target == ArithmeticTarget::HLI {
        8
    } else {
        4
    };
    let outcome: (u8, FlagsRegister) = match i {
        Instruction::ADD(_) => {
            let r8 = ((a + v) % 256) as u8;
            (r8, spec_flags(r8 == 0, false, a % 16 + v % 16 > 15, a + v > 255))
        },
        Instruction::ADC(_) => {
            let r8 = ((a + v + carry_in) % 256) as u8;
            (
                r8,
                spec_flags(r8 == 0, false, a % 16 + v % 16 + carry_in > 15, a + v + carry_in > 255),
            )
        },
        Instruction::SUB(_) => {
            let r8 = ((a - v) % 256) as u8;
            (r8, spec_flags(r8 == 0, true, a % 16 < v % 16, a < v))
        },
        Instruction::SBC(_) => {
            let r8 = ((a - v - carry_in) % 256) as u8;
            (r8, spec_flags(r8 == 0, true, a % 16 < v % 16 + carry_in, a < v + carry_in))
        },
        Instruction::AND(_) => {
            let r8 = a & v;
            (r8, spec_flags(r8 == 0, false, true, false))
        },
        Instruction::OR(_) => {
            let r8 = a | v;
            (r8, spec_flags(r8 == 0, false, false, false))
        },
        Instruction::XOR(_) => {
            let r8 = a ^ v;
            (r8, spec_flags(r8 == 0, false, false, false))
        },
        Instruction::CP(_) => (a, spec_flags(a == v, true, a % 16 < v % 16, a < v)),
        _ => (a, f),
    };
    (
        CpuV { registers: Registers { a: outcome.0, f: outcome.1, ..s.registers }, ..s },
        next_pc,
        cycles,
    )
}

/// The 16-bit additions: ADD HL,rr and ADD SP,e8.
#[verifier::opaque]
pub open spec fn spec_exec_wide_arithmetic(s: CpuV, i: Instruction) -> (CpuV, u16, u16) {
    let f = s.registers.f;
    match i {
        Instruction::ADDHL(target) => {
            let value = match target {
                ArithmeticHLTarget::BC => spec_pair(s.registers.b, s.registers.c),
                ArithmeticHLTarget::DE => spec_pair(s.registers.d, s.registers.e),
                ArithmeticHLTarget::HL => spec_hl(s),
                ArithmeticHLTarget::SP => s.sp,
            };
            let hl = spec_hl(s);
            let result = ((hl + value) % 0x10000) as u16;
            (
                CpuV {
                    registers: Registers {
                        h: spec_high_byte(result),
                        l: spec_low_byte(result),
                        f: spec_flags(
                            f.zero,
                            false,
                            hl % 0x1000 + value % 0x1000 > 0xFFF,
                            hl + value > 0xFFFF,
                        ),
                        ..s.registers
                    },
                    ..s
                },
                spec_wrap16(s.pc + 1),
                8,
            )
        },
        Instruction::ADDSP => {
            let raw = spec_read_byte(s.bus, spec_wrap16(s.pc + 1));
            let extended: int = if raw < 128 {
                raw as int
            } else {
                raw + 0xFF00
            };
            let result = ((s.sp + extended) % 0x10000) as u16;
            (
                CpuV {
                    sp: result,
                    registers: Registers {
                        f: spec_flags(
                            false,
                            false,
                            s.sp % 16 + extended % 16 > 15,
                            s.sp % 256 + extended % 256 > 255,
                        ),
                        ..s.registers
                    },
                    ..s
                },
                spec_wrap16(s.pc + 2),
                16,
            )
        },
        _ => (s, spec_wrap16(s.pc + 1), 4),
    }
}

/// The flags an 8-bit increment or decrement leaves: Z from the result, N
/// says which it was, H marks the nibble boundary, C is kept.
pub open spec fn spec_inc_dec_flags(increment: bool, value: u8, result: u8, carry: bool) -> FlagsRegister {
    if increment {
        spec_flags(result == 0, false, value % 16 == 15, carry)
    } else {
        spec_flags(result == 0, true, value % 16 == 0, carry)
    }
}

/// An 8-bit register increment or decrement, with its flags.
#[verifier::opaque]
pub open spec fn spec_exec_bump_reg8(s: CpuV, increment: bool, target: IncDecTarget) -> (CpuV, u16, u16) {
    let pc1 = spec_wrap16(s.pc + 1);
    let carry = s.registers.f.carry;
    match target {
        IncDecTarget::A => {
            let r8 = spec_bump8(increment, s.registers.a);
            (
                CpuV {
                    registers: Registers {
                        a: r8,
                        f: spec_inc_dec_flags(increment, s.registers.a, r8, carry),
                        ..s.registers
                    },
                    ..s
                },
                pc1,
                4,
            )
        },
        IncDecTarget::B => {
            let r8 = spec_bump8(increment, s.registers.b);
            (
                CpuV {
                    registers: Registers {
                        b: r8,
                        f: spec_inc_dec_flags(increment, s.registers.b, r8, carry),
                        ..s.registers
                    },
                    ..s
                },
                pc1,
                4,
            )
        },
        IncDecTarget::C => {
            let r8 = spec_bump8(increment, s.registers.c);
            (
                CpuV {
                    registers: Registers {
                        c: r8,
                        f: spec_inc_dec_flags(increment, s.registers.c, r8, carry),
                        ..s.registers
                    },
                    ..s
                },
                pc1,
                4,
            )
        },
        IncDecTarget::D => {
            let r8 = spec_bump8(increment, s.registers.d);
            (
                CpuV {
                    registers: Registers {
                        d: r8,
                        f: spec_inc_dec_flags(increment, s.registers.d, r8, carry),
                        ..s.registers
                    },
                    ..s
                },
                pc1,
                4,
            )
        },
        IncDecTarget::E => {
            let r8 = spec_bump8(increment, s.registers.e);
            (
                CpuV {
                    registers: Registers {
                        e: r8,
                        f: spec_inc_dec_flags(increment, s.registers.e, r8, carry),
                        ..s.registers
                    },
                    ..s
                },
                pc1,
                4,
            )
        },
        IncDecTarget::H => {
            let r8 = spec_bump8(increment, s.registers.h);
            (
                CpuV {
                    registers: Registers {
                        h: r8,
                        f: spec_inc_dec_flags(increment, s.registers.h, r8, carry),
                        ..s.registers
                    },
                    ..s
                },
                pc1,
                4,
            )
        },
        _ => {
            let r8 = spec_bump8(increment, s.registers.l);
            (
                CpuV {
                    registers: Registers {
                        l: r8,
                        f: spec_inc_dec_flags(increment, s.registers.l, r8, carry),
                        ..s.registers
                    },
                    ..s
                },
                pc1,
                4,
            )
        },
    }
}

/// The increments and decrements, 8-bit with flags and 16-bit without.
#[verifier::opaque]
pub open spec fn spec_exec_inc_dec(s: CpuV, i: Instruction) -> (CpuV, u16, u16) {
    let increment = i matches Instruction::INC(_);
    let target = match i {
        Instruction::INC(t) => t,
        Instruction::DEC(t) => t,
        _ => IncDecTarget::A,
    };
    let pc1 = spec_wrap16(s.pc + 1);
    let f = s.registers.f;
    match target {
        IncDecTarget::HLI => {
            let value = spec_read_byte(s.bus, spec_hl(s));
            let r8 = spec_bump8(increment, value);
            (
                CpuV {
                    bus: spec_write_byte(s.bus, spec_hl(s), r8),
                    registers: Registers {
                        f: spec_inc_dec_flags(increment, value, r8, f.carry),
                        ..s.registers
                    },
                    ..s
                },
                pc1,
                12,
            )
        },
        IncDecTarget::BC => {
            let r16 = spec_bump16(increment, spec_pair(s.registers.b, s.registers.c));
            (
                CpuV {
                    registers: Registers {
                        b: spec_high_byte(r16),
                        c: spec_low_byte(r16),
                        ..s.registers
                    },
                    ..s
                },
                pc1,
                8,
            )
        },
        IncDecTarget::DE => {
            let r16 = spec_bump16(increment, spec_pair(s.registers.d, s.registers.e));
            (
                CpuV {
                    registers: Registers {
                        d: spec_high_byte(r16),
                        e: spec_low_byte(r16),
                        ..s.registers
                    },
                    ..s
                },
                pc1,
                8,
            )
        },
        IncDecTarget::HL => {
            let r16 = spec_bump16(increment, spec_hl(s));
            (
                CpuV {
                    registers: Registers {
                        h: spec_high_byte(r16),
                        l: spec_low_byte(r16),
                        ..s.registers
                    },
                    ..s
                },
                pc1,
                8,
            )
        },
        IncDecTarget::SP => (CpuV { sp: spec_bump16(increment, s.sp), ..s }, pc1, 8),
        _ => spec_exec_bump_reg8(s, increment, target),
    }
}

/// A byte stepped up or down by one, wrapping.
pub open spec fn spec_bump8(increment: bool, value: u8) -> u8 {
    if increment {
        ((value + 1) % 256) as u8
    } else {
        ((value - 1) % 256) as u8
    }
}

/// A word stepped up or down by one, wrapping.
pub open spec fn spec_bump16(increment: bool, value: u16) -> u16 {
    if increment {
        ((value + 1) % 0x10000) as u16
    } else {
        ((value - 1) % 0x10000) as u16
    }
}


/// A byte load: register to register, immediate or via HL.
#[verifier::opaque]
pub open spec fn spec_exec_load_byte(s: CpuV, target: LoadByteTarget, source: LoadByteSource) -> (CpuV, u16, u16) {
    let value = match source {
        LoadByteSource::A => s.registers.a,
        LoadByteSource::B => s.registers.b,
        LoadByteSource::C => s.registers.c,
        LoadByteSource::D => s.registers.d,
        LoadByteSource::E => s.registers.e,
        LoadByteSource::H => s.registers.h,
        LoadByteSource::L => s.registers.l,
        LoadByteSource::D8 => spec_read_byte(s.bus, spec_wrap16(s.pc + 1)),
        LoadByteSource::HLI => spec_read_byte(s.bus, spec_hl(s)),
    };
    let loaded = match target {
        LoadByteTarget::A => CpuV { registers: Registers { a: value, ..s.registers }, ..s },
        LoadByteTarget::B => CpuV { registers: Registers { b: value, ..s.registers }, ..s },
        LoadByteTarget::C => CpuV { registers: Registers { c: value, ..s.registers }, ..s },
        LoadByteTarget::D => CpuV { registers: Registers { d: value, ..s.registers }, ..s },
        LoadByteTarget::E => CpuV { registers: Registers { e: value, ..s.registers }, ..s },
        LoadByteTarget::H => CpuV { registers: Registers { h: value, ..s.registers }, ..s },
        LoadByteTarget::L => CpuV { registers: Registers { l: value, ..s.registers }, ..s },
        LoadByteTarget::HLI => CpuV { bus: spec_write_byte(s.bus, spec_hl(s), value), ..s },
    };
    let cycles: u16 = if source == LoadByteSource::D8 {
        if target == LoadByteTarget::HLI {
            12
        } else {
            8
        }
    } else if source == LoadByteSource::HLI || target == LoadByteTarget::HLI {
        8
    } else {
        4
    };
    (
        loaded,
        if source == LoadByteSource::D8 {
            spec_wrap16(s.pc + 2)
        } else {
            spec_wrap16(s.pc + 1)
        },
        cycles,
    )
}

/// A word load from the immediate word into a pair or SP.
#[verifier::opaque]
pub open spec fn spec_exec_load_word(s: CpuV, target: LoadWordTarget) -> (CpuV, u16, u16) {
    let value = spec_read_word(s.bus, spec_wrap16(s.pc + 1));
    let loaded = match target {
        LoadWordTarget::BC => CpuV {
            registers: Registers {
                b: spec_high_byte(value),
                c: spec_low_byte(value),
                ..s.registers
            },
            ..s
        },
        LoadWordTarget::DE => CpuV {
            registers: Registers {
                d: spec_high_byte(value),
                e: spec_low_byte(value),
                ..s.registers
            },
            ..s
        },
        LoadWordTarget::HL => CpuV {
            registers: Registers {
                h: spec_high_byte(value),
                l: spec_low_byte(value),
                ..s.registers
            },
            ..s
        },
        LoadWordTarget::SP => CpuV { sp: value, ..s },
    };
    (loaded, spec_wrap16(s.pc + 3), 12)
}

/// A store of A through an indirect address, with the HL post-increment and
/// post-decrement forms.
#[verifier::opaque]
pub open spec fn spec_exec_store_indirect(s: CpuV, target: Indirect) -> (CpuV, u16, u16) {
    let a = s.registers.a;
    let stored = match target {
        Indirect::BC => CpuV {
            bus: spec_write_byte(s.bus, spec_pair(s.registers.b, s.registers.c), a),
            ..s
        },
        Indirect::DE => CpuV {
            bus: spec_write_byte(s.bus, spec_pair(s.registers.d, s.registers.e), a),
            ..s
        },
        Indirect::HLPlus => {
            let bumped = ((spec_hl(s) + 1) % 0x10000) as u16;
            CpuV {
                bus: spec_write_byte(s.bus, spec_hl(s), a),
                registers: Registers {
                    h: spec_high_byte(bumped),
                    l: spec_low_byte(bumped),
                    ..s.registers
                },
                ..s
            }
        },
        Indirect::HLMinus => {
            let bumped = ((spec_hl(s) - 1) % 0x10000) as u16;
            CpuV {
                bus: spec_write_byte(s.bus, spec_hl(s), a),
                registers: Registers {
                    h: spec_high_byte(bumped),
                    l: spec_low_byte(bumped),
                    ..s.registers
                },
                ..s
            }
        },
        Indirect::Word => CpuV {
            bus: spec_write_byte(s.bus, spec_read_word(s.bus, spec_wrap16(s.pc + 1)), a),
            ..s
        },
        Indirect::LastByte => CpuV {
            bus: spec_write_byte(s.bus, (0xFF00 + s.registers.c) as u16, a),
            ..s
        },
    };
    if target == Indirect::Word {
        (stored, spec_wrap16(s.pc + 3), 16)
    } else {
        (stored, spec_wrap16(s.pc + 1), 8)
    }
}

/// A load of A through an indirect address, with the HL post-increment and
/// post-decrement forms.
#[verifier::opaque]
pub open spec fn spec_exec_load_indirect(s: CpuV, target: Indirect) -> (CpuV, u16, u16) {
    let loaded = match target {
        Indirect::BC => CpuV {
            registers: Registers {
                a: spec_read_byte(s.bus, spec_pair(s.registers.b, s.registers.c)),
                ..s.registers
            },
            ..s
        },
        Indirect::DE => CpuV {
            registers: Registers {
                a: spec_read_byte(s.bus, spec_pair(s.registers.d, s.registers.e)),
                ..s.registers
            },
            ..s
        },
        Indirect::HLPlus => {
            let bumped = ((spec_hl(s) + 1) % 0x10000) as u16;
            CpuV {
                registers: Registers {
                    a: spec_read_byte(s.bus, spec_hl(s)),
                    h: spec_high_byte(bumped),
                    l: spec_low_byte(bumped),
                    ..s.registers
                },
                ..s
            }
        },
        Indirect::HLMinus => {
            let bumped = ((spec_hl(s) - 1) % 0x10000) as u16;
            CpuV {
                registers: Registers {
                    a: spec_read_byte(s.bus, spec_hl(s)),
                    h: spec_high_byte(bumped),
                    l: spec_low_byte(bumped),
                    ..s.registers
                },
                ..s
            }
        },
        Indirect::Word => CpuV {
            registers: Registers {
                a: spec_read_byte(s.bus, spec_read_word(s.bus, spec_wrap16(s.pc + 1))),
                ..s.registers
            },
            ..s
        },
        Indirect::LastByte => CpuV {
            registers: Registers {
                a: spec_read_byte(s.bus, (0xFF00 + s.registers.c) as u16),
                ..s.registers
            },
            ..s
        },
    };
    if target == Indirect::Word {
        (loaded, spec_wrap16(s.pc + 3), 16)
    } else {
        (loaded, spec_wrap16(s.pc + 1), 8)
    }
}

/// The stack-pointer and I/O-page loads: SP from HL, HL from SP plus a
/// signed byte, SP to an absolute word, and A to or from the I/O page.
#[verifier::opaque]
pub open spec fn spec_exec_load_special(s: CpuV, load_type: LoadType) -> (CpuV, u16, u16) {
    let pc1 = spec_wrap16(s.pc + 1);
    let pc2 = spec_wrap16(s.pc + 2);
    let pc3 = spec_wrap16(s.pc + 3);
    let a = s.registers.a;
    match load_type {
        LoadType::SPFromHL => (CpuV { sp: spec_hl(s), ..s }, pc1, 8),
        LoadType::HLFromSPN => {
            let raw = spec_read_byte(s.bus, pc1);
            let extended: int = if raw < 128 {
                raw as int
            } else {
                raw + 0xFF00
            };
            let value = ((s.sp + extended) % 0x10000) as u16;
            (
                CpuV {
                    registers: Registers {
                        h: spec_high_byte(value),
                        l: spec_low_byte(value),
                        f: spec_flags(
                            false,
                            false,
                            s.sp % 16 + extended % 16 > 15,
                            s.sp % 256 + extended % 256 > 255,
                        ),
                        ..s.registers
                    },
                    ..s
                },
                pc2,
                12,
            )
        },
        LoadType::IndirectFromSP => {
            let address = spec_read_word(s.bus, pc1);
            (
                CpuV {
                    bus: spec_write_byte(
                        spec_write_byte(s.bus, address, spec_low_byte(s.sp)),
                        spec_wrap16(address + 1),
                        spec_high_byte(s.sp),
                    ),
                    ..s
                },
                pc3,
                20,
            )
        },
        LoadType::ByteAddressFromA => (
            CpuV {
                bus: spec_write_byte(s.bus, (0xFF00 + spec_read_byte(s.bus, pc1)) as u16, a),
                ..s
            },
            pc2,
            12,
        ),
        LoadType::AFromByteAddress => (
            CpuV {
                registers: Registers {
                    a: spec_read_byte(s.bus, (0xFF00 + spec_read_byte(s.bus, pc1)) as u16),
                    ..s.registers
                },
                ..s
            },
            pc2,
            12,
        ),
        _ => (s, pc1, 4),
    }
}

/// The loads: register moves, immediates, the indirect forms, the I/O-page
/// forms and the stack-pointer loads.
pub open spec fn spec_exec_load(s: CpuV, i: Instruction) -> (CpuV, u16, u16) {
    match i {
        Instruction::LD(load_type) => match load_type {
            LoadType::Byte(target, source) => spec_exec_load_byte(s, target, source),
            LoadType::Word(target) => spec_exec_load_word(s, target),
            LoadType::IndirectFromA(target) => spec_exec_store_indirect(s, target),
            LoadType::AFromIndirect(target) => spec_exec_load_indirect(s, target),
            _ => spec_exec_load_special(s, load_type),
        },
        _ => (s, spec_wrap16(s.pc + 1), 4),
    }
}

/// The prefixed single-byte operations: rotates, shifts, swap and the bit
/// test, reset and set.
#[verifier::opaque]
pub open spec fn spec_exec_prefix(s: CpuV, i: Instruction) -> (CpuV, u16, u16) {
    let target = match i {
        Instruction::SRL(t) => t,
        Instruction::RR(t) => t,
        Instruction::RL(t) => t,
        Instruction::RRC(t) => t,
        Instruction::RLC(t) => t,
        Instruction::SRA(t) => t,
        Instruction::SLA(t) => t,
        Instruction::SWAP(t) => t,
        Instruction::BIT(t, _) => t,
        Instruction::RES(t, _) => t,
        Instruction::SET(t, _) => t,
        _ => PrefixTarget::A,
    };
    let v = spec_prefix_operand(s, target);
    let f = s.registers.f;
    let carry_in: int = if f.carry {
        1
    } else {
        0
    };
    let pc2 = spec_wrap16(s.pc + 2);
    let cycles: u16 = if target == PrefixTarget::HLI {
        if i matches Instruction::BIT(_, _) {
            12
        } else {
            16
        }
    } else {
        8
    };
    let stepped = match i {
        Instruction::SRL(_) => {
            let r8 = v / 2;
            spec_prefix_store(
                spec_with_flags(s, spec_flags(r8 == 0, false, false, v % 2 == 1)),
                target,
                r8,
            )
        },
        Instruction::RR(_) => {
            let r8 = ((carry_in * 128) + v / 2) as u8;
            spec_prefix_store(
                spec_with_flags(s, spec_flags(r8 == 0, false, false, v % 2 == 1)),
                target,
                r8,
            )
        },
        Instruction::RL(_) => {
            let r8 = ((v % 128) * 2 + carry_in) as u8;
            spec_prefix_store(
                spec_with_flags(s, spec_flags(r8 == 0, false, false, v >= 128)),
                target,
                r8,
            )
        },
        Instruction::RRC(_) => {
            let r8 = ((v % 2) * 128 + v / 2) as u8;
            spec_prefix_store(
                spec_with_flags(s, spec_flags(r8 == 0, false, false, v % 2 == 1)),
                target,
                r8,
            )
        },
        Instruction::RLC(_) => {
            let r8 = ((v % 128) * 2 + v / 128) as u8;
            spec_prefix_store(
                spec_with_flags(s, spec_flags(r8 == 0, false, false, v >= 128)),
                target,
                r8,
            )
        },
        Instruction::SRA(_) => {
            let r8 = ((v / 128) * 128 + v / 2) as u8;
            spec_prefix_store(
                spec_with_flags(s, spec_flags(r8 == 0, false, false, v % 2 == 1)),
                target,
                r8,
            )
        },
        Instruction::SLA(_) => {
            let r8 = ((v % 128) * 2) as u8;
            spec_prefix_store(
                spec_with_flags(s, spec_flags(r8 == 0, false, false, v >= 128)),
                target,
                r8,
            )
        },
        Instruction::SWAP(_) => {
            let r8 = ((v % 16) * 16 + v / 16) as u8;
            spec_prefix_store(
                spec_with_flags(s, spec_flags(r8 == 0, false, false, false)),
                target,
                r8,
            )
        },
        Instruction::BIT(_, position) => spec_with_flags(
            s,
            spec_flags(
                (v / spec_bit_power(spec_bit_index(position)) as u8) % 2 == 0,
                false,
                true,
                f.carry,
            ),
        ),
        Instruction::RES(_, position) => spec_prefix_store(
            s,
            target,
            v & !(spec_bit_power(spec_bit_index(position)) as u8),
        ),
        Instruction::SET(_, position) => spec_prefix_store(
            s,
            target,
            v | spec_bit_power(spec_bit_index(position)) as u8,
        ),
        _ => s,
    };
    (stepped, pc2, cycles)
}

/// One instruction's full effect: the state after it, the program counter
/// it hands back for the next step, and its cycle cost.
pub open spec fn spec_execute(s: CpuV, i: Instruction) -> (CpuV, u16, u16) {
    match i {
        Instruction::LD(_) => spec_exec_load(s, i),
        Instruction::ADD(_) => spec_exec_arithmetic(s, i),
        Instruction::ADC(_) => spec_exec_arithmetic(s, i),
        Instruction::SUB(_) => spec_exec_arithmetic(s, i),
        Instruction::SBC(_) => spec_exec_arithmetic(s, i),
        Instruction::AND(_) => spec_exec_arithmetic(s, i),
        Instruction::OR(_) => spec_exec_arithmetic(s, i),
        Instruction::XOR(_) => spec_exec_arithmetic(s, i),
        Instruction::CP(_) => spec_exec_arithmetic(s, i),
        Instruction::ADDHL(_) => spec_exec_wide_arithmetic(s, i),
        Instruction::ADDSP => spec_exec_wide_arithmetic(s, i),
        Instruction::INC(_) => spec_exec_inc_dec(s, i),
        Instruction::DEC(_) => spec_exec_inc_dec(s, i),
        Instruction::PUSH(_) => spec_exec_stack(s, i),
        Instruction::POP(_) => spec_exec_stack(s, i),
        Instruction::RST(_) => spec_exec_stack(s, i),
        Instruction::CALL(_) => spec_exec_stack(s, i),
        Instruction::RET(_) => spec_exec_stack(s, i),
        Instruction::JP(_) => spec_exec_jump(s, i),
        Instruction::JR(_) => spec_exec_jump(s, i),
        Instruction::JPHL => spec_exec_jump(s, i),
        Instruction::SRL(_) => spec_exec_prefix(s, i),
        Instruction::RR(_) => spec_exec_prefix(s, i),
        Instruction::RL(_) => spec_exec_prefix(s, i),
        Instruction::RRC(_) => spec_exec_prefix(s, i),
        Instruction::RLC(_) => spec_exec_prefix(s, i),
        Instruction::SRA(_) => spec_exec_prefix(s, i),
        Instruction::SLA(_) => spec_exec_prefix(s, i),
        Instruction::SWAP(_) => spec_exec_prefix(s, i),
        Instruction::BIT(_, _) => spec_exec_prefix(s, i),
        Instruction::RES(_, _) => spec_exec_prefix(s, i),
        Instruction::SET(_, _) => spec_exec_prefix(s, i),
        _ => spec_exec_misc(s, i),
    }
}

impl CPU {
    /// A cold core over a cartridge image: all registers zero, interrupts
    /// enabled, not halted. The image must back the two fixed banks and a
    /// boot image must be exactly 256 bytes.
    pub fn new(boot_room: Option<Vec<u8>>, game_rom: Vec<u8>) -> (r: CPU)
        requires
            game_rom@.len() >= 0x8000,
            boot_room is Some ==> boot_room->0@.len() == BOOT_ROM_SIZE,
        ensures
            r.bus.well_formed(),
            !r.is_halted,
            r.interrupt_enabled,
            !r.interrupt_enable_pending,
            r.pc == 0,
            r.sp == 0,
            r.registers == (Registers {
                a: 0u8,
                b: 0u8,
                c: 0u8,
                d: 0u8,
                e: 0u8,
                f: FlagsRegister { zero: false, subtract: false, half_carry: false, carry: false },
                h: 0u8,
                l: 0u8,
            }),
    {
        CPU {
            is_halted: false,
            interrupt_enabled: true,
            interrupt_enable_pending: false,
            bus: MemoryBus::new(boot_room, game_rom),
            pc: 0,
            sp: 0,
            registers: Registers::new(),
        }
    }

    fn read_byte_at_hl(&self) -> (r: u8)
        requires
            self.bus.well_formed(),
        ensures
            r == spec_read_byte(self.bus@, spec_pair(self.registers.h, self.registers.l)),
    {
        self.bus.read_byte(self.registers.get_hl())
    }

    fn read_next_byte(&self) -> (r: u8)
        requires
            self.bus.well_formed(),
        ensures
            r == spec_read_byte(self.bus@, spec_wrap16(self.pc + 1)),
    {
        self.bus.read_byte(self.pc.wrapping_add(1))
    }

    fn read_next_word(&self) -> (r: u16)
        requires
            self.bus.well_formed(),
        ensures
            r == spec_read_word(self.bus@, spec_wrap16(self.pc + 1)),
    {
        let low = self.bus.read_byte(self.pc.wrapping_add(1));
        let high = self.bus.read_byte(self.pc.wrapping_add(2));
        proof {
            assert(spec_wrap16(spec_wrap16(self.pc + 1) + 1) == spec_wrap16(self.pc + 2));
        }
        (high as u16) * 256 + low as u16
    }

    /// Store one byte through the bus; the only way the core writes memory.
    fn store_byte(&mut self, address: u16, value: u8)
        requires
            old(self).bus.well_formed(),
        ensures
            final(self).bus@ == spec_write_byte(old(self).bus@, address, value),
            final(self).bus.well_formed(),
            final(self).pc == old(self).pc,
            final(self).sp == old(self).sp,
            final(self).registers == old(self).registers,
            final(self).is_halted == old(self).is_halted,
            final(self).interrupt_enabled == old(self).interrupt_enabled,
            final(self).interrupt_enable_pending == old(self).interrupt_enable_pending,
    {
        let ghost b0 = self.bus@;
        self.bus.write_byte(address, value);
        proof {
            lemma_write_byte_well_formed(b0, address, value);
        }
    }

    fn write_byte_at_hl(&mut self, value: u8)
        requires
            old(self).bus.well_formed(),
        ensures
            final(self).bus@ == spec_write_byte(
                old(self).bus@,
                spec_pair(old(self).registers.h, old(self).registers.l),
                value,
            ),
            final(self).bus.well_formed(),
            final(self).pc == old(self).pc,
            final(self).sp == old(self).sp,
            final(self).registers == old(self).registers,
            final(self).is_halted == old(self).is_halted,
            final(self).interrupt_enabled == old(self).interrupt_enabled,
            final(self).interrupt_enable_pending == old(self).interrupt_enable_pending,
    {
        let address = self.registers.get_hl();
        self.store_byte(address, value);
    }

    /// Push a word: SP moves down twice and the bytes land high first.
    fn push(&mut self, value: u16)
        requires
            old(self).bus.well_formed(),
        ensures
            final(self).bus@ == spec_push(old(self).bus@, old(self).sp, value),
            final(self).bus.well_formed(),
            final(self).sp == spec_wrap16(old(self).sp - 2),
            final(self).pc == old(self).pc,
            final(self).registers == old(self).registers,
            final(self).is_halted == old(self).is_halted,
            final(self).interrupt_enabled == old(self).interrupt_enabled,
            final(self).interrupt_enable_pending == old(self).interrupt_enable_pending,
    {
        self.sp = self.sp.wrapping_sub(1);
        let high = (value / 256) as u8;
        let address_high = self.sp;
        self.store_byte(address_high, high);
        self.sp = self.sp.wrapping_sub(1);
        let low = (value % 256) as u8;
        let address_low = self.sp;
        self.store_byte(address_low, low);
        proof {
            assert(spec_wrap16(spec_wrap16(old(self).sp - 1) - 1) == spec_wrap16(old(self).sp - 2));
        }
    }

    /// Pop a word: the low byte at SP, the high byte above it, SP moves up
    /// twice.
    fn pop(&mut self) -> (r: u16)
        requires
            old(self).bus.well_formed(),
        ensures
            r == spec_pop_value(old(self).bus@, old(self).sp),
            final(self).sp == spec_wrap16(old(self).sp + 2),
            final(self).bus == old(self).bus,
            final(self).pc == old(self).pc,
            final(self).registers == old(self).registers,
            final(self).is_halted == old(self).is_halted,
            final(self).interrupt_enabled == old(self).interrupt_enabled,
            final(self).interrupt_enable_pending == old(self).interrupt_enable_pending,
    {
        let lsb = self.bus.read_byte(self.sp) as u16;
        self.sp = self.sp.wrapping_add(1);
        let msb = self.bus.read_byte(self.sp) as u16;
        self.sp = self.sp.wrapping_add(1);
        proof {
            assert(spec_wrap16(spec_wrap16(old(self).sp + 1) + 1) == spec_wrap16(old(self).sp + 2));
        }
        msb * 256 + lsb
    }
}


impl CPU {
    /// A plus the operand, optionally plus the carry flag: Z from the
    /// result, N cleared, H from the low nibbles, C from the byte sum.
    fn add(&mut self, value: u8, add_carry: bool) -> (r: u8)
        ensures
            ({
                let c: int = if add_carry && old(self).registers.f.carry {
                    1int
                } else {
                    0int
                };
                &&& r == (old(self).registers.a + value + c) % 256
                &&& final(self).registers.f.zero == (r == 0)
                &&& !final(self).registers.f.subtract
                &&& final(self).registers.f.carry == (old(self).registers.a + value + c > 255)
                &&& final(self).registers.f.half_carry == (old(self).registers.a % 16 + value % 16
                    + c > 15)
                &&& spec_same_but_flags(*old(self), *final(self))
            }),
    {
        let carry_in: u16 = if add_carry && self.registers.f.carry {
            1
        } else {
            0
        };
        let sum: u16 = self.registers.a as u16 + value as u16 + carry_in;
        let result = (sum % 256) as u8;
        self.registers.f.zero = result == 0;
        self.registers.f.subtract = false;
        self.registers.f.carry = sum > 255;
        self.registers.f.half_carry = self.registers.a % 16 + value % 16 + carry_in as u8 > 15;
        result
    }

    fn add_without_carry(&mut self, value: u8) -> (r: u8)
        ensures
            r == (old(self).registers.a + value) % 256,
            final(self).registers.f.zero == (r == 0),
            !final(self).registers.f.subtract,
            final(self).registers.f.carry == (old(self).registers.a + value > 255),
            final(self).registers.f.half_carry == (old(self).registers.a % 16 + value % 16 > 15),
            spec_same_but_flags(*old(self), *final(self)),
    {
        self.add(value, false)
    }

    fn add_with_carry(&mut self, value: u8) -> (r: u8)
        ensures
            ({
                let c: int = if old(self).registers.f.carry {
                    1int
                } else {
                    0int
                };
                &&& r == (old(self).registers.a + value + c) % 256
                &&& final(self).registers.f.zero == (r == 0)
                &&& !final(self).registers.f.subtract
                &&& final(self).registers.f.carry == (old(self).registers.a + value + c > 255)
                &&& final(self).registers.f.half_carry == (old(self).registers.a % 16 + value % 16
                    + c > 15)
                &&& spec_same_but_flags(*old(self), *final(self))
            }),
    {
        self.add(value, true)
    }

    /// A minus the operand, optionally minus the carry flag: Z from the
    /// result, N set, H and C from the borrows.
    fn sub(&mut self, value: u8, sub_carry: bool) -> (r: u8)
        ensures
            ({
                let c: int = if sub_carry && old(self).registers.f.carry {
                    1int
                } else {
                    0int
                };
                &&& r == (old(self).registers.a - value - c) % 256
                &&& final(self).registers.f.zero == (r == 0)
                &&& final(self).registers.f.subtract
                &&& final(self).registers.f.carry == (old(self).registers.a < value + c)
                &&& final(self).registers.f.half_carry == (old(self).registers.a % 16 < value % 16
                    + c)
                &&& spec_same_but_flags(*old(self), *final(self))
            }),
    {
        let carry_in: u16 = if sub_carry && self.registers.f.carry {
            1
        } else {
            0
        };
        let a = self.registers.a as u16;
        let taken = value as u16 + carry_in;
        let result = ((a + 256 - taken % 256) % 256) as u8;
        proof {
            let av = self.registers.a;
            let cv = carry_in;
            assert((av + 256 - (value + cv) % 256) % 256 == (av - value - cv) % 256) by (bit_vector)
                requires
                    cv <= 1,
            ;
        }
        self.registers.f.zero = result == 0;
        self.registers.f.subtract = true;
        self.registers.f.carry = a < taken;
        let low_nibble: u16 = (self.registers.a % 16) as u16;
        let taken_nibble: u16 = (value % 16) as u16 + carry_in;
        self.registers.f.half_carry = low_nibble < taken_nibble;
        result
    }

    fn sub_without_carry(&mut self, value: u8) -> (r: u8)
        ensures
            r == (old(self).registers.a - value) % 256,
            final(self).registers.f.zero == (r == 0),
            final(self).registers.f.subtract,
            final(self).registers.f.carry == (old(self).registers.a < value),
            final(self).registers.f.half_carry == (old(self).registers.a % 16 < value % 16),
            spec_same_but_flags(*old(self), *final(self)),
    {
        self.sub(value, false)
    }

    fn sub_with_carry(&mut self, value: u8) -> (r: u8)
        ensures
            ({
                let c: int = if old(self).registers.f.carry {
                    1int
                } else {
                    0int
                };
                &&& r == (old(self).registers.a - value - c) % 256
                &&& final(self).registers.f.zero == (r == 0)
                &&& final(self).registers.f.subtract
                &&& final(self).registers.f.carry == (old(self).registers.a < value + c)
                &&& final(self).registers.f.half_carry == (old(self).registers.a % 16 < value % 16
                    + c)
                &&& spec_same_but_flags(*old(self), *final(self))
            }),
    {
        self.sub(value, true)
    }

    /// A AND the operand: Z from the result, H set, N and C cleared.
    fn and(&mut self, value: u8) -> (r: u8)
        ensures
            r == old(self).registers.a & value,
            final(self).registers.f.zero == (r == 0),
            !final(self).registers.f.subtract,
            final(self).registers.f.half_carry,
            !final(self).registers.f.carry,
            spec_same_but_flags(*old(self), *final(self)),
    {
        let result = self.registers.a & value;
        self.registers.f.zero = result == 0;
        self.registers.f.subtract = false;
        self.registers.f.half_carry = true;
        self.registers.f.carry = false;
        result
    }

    /// A OR the operand: Z from the result, the other flags cleared.
    fn or(&mut self, value: u8) -> (r: u8)
        ensures
            r == old(self).registers.a | value,
            final(self).registers.f.zero == (r == 0),
            !final(self).registers.f.subtract,
            !final(self).registers.f.half_carry,
            !final(self).registers.f.carry,
            spec_same_but_flags(*old(self), *final(self)),
    {
        let result = self.registers.a | value;
        self.registers.f.zero = result == 0;
        self.registers.f.subtract = false;
        self.registers.f.half_carry = false;
        self.registers.f.carry = false;
        result
    }

    /// A XOR the operand: Z from the result, the other flags cleared.
    fn xor(&mut self, value: u8) -> (r: u8)
        ensures
            r == (old(self).registers.a ^ value),
            final(self).registers.f.zero == (r == 0),
            !final(self).registers.f.subtract,
            !final(self).registers.f.half_carry,
            !final(self).registers.f.carry,
            spec_same_but_flags(*old(self), *final(self)),
    {
        let result = self.registers.a ^ value;
        self.registers.f.zero = result == 0;
        self.registers.f.subtract = false;
        self.registers.f.half_carry = false;
        self.registers.f.carry = false;
        result
    }

    /// Compare A with the operand: the flags of a subtraction, A kept.
    fn compare(&mut self, value: u8)
        ensures
            final(self).registers.f.zero == (old(self).registers.a == value),
            final(self).registers.f.subtract,
            final(self).registers.f.half_carry == (old(self).registers.a % 16 < value % 16),
            final(self).registers.f.carry == (old(self).registers.a < value),
            spec_same_but_flags(*old(self), *final(self)),
    {
        self.registers.f.zero = self.registers.a == value;
        self.registers.f.subtract = true;
        self.registers.f.half_carry = self.registers.a % 16 < value % 16;
        self.registers.f.carry = self.registers.a < value;
    }

    /// Bitwise complement of the operand: N and H set, Z and C kept.
    fn complement(&mut self, value: u8) -> (r: u8)
        ensures
            r == !value,
            final(self).registers.f.subtract,
            final(self).registers.f.half_carry,
            final(self).registers.f.zero == old(self).registers.f.zero,
            final(self).registers.f.carry == old(self).registers.f.carry,
            spec_same_but_flags(*old(self), *final(self)),
    {
        self.registers.f.subtract = true;
        self.registers.f.half_carry = true;
        !value
    }

    /// Increment a byte: Z from the result, N cleared, H when the low
    /// nibble was 0xF, C kept.
    fn increment_8bit(&mut self, value: u8) -> (r: u8)
        ensures
            r == (value + 1) % 256,
            final(self).registers.f.zero == (r == 0),
            !final(self).registers.f.subtract,
            final(self).registers.f.half_carry == (value % 16 == 15),
            final(self).registers.f.carry == old(self).registers.f.carry,
            spec_same_but_flags(*old(self), *final(self)),
    {
        let result = if value == 255 {
            0
        } else {
            value + 1
        };
        self.registers.f.zero = result == 0;
        self.registers.f.subtract = false;
        self.registers.f.half_carry = value % 16 == 15;
        result
    }

    fn increment_16bit(&mut self, value: u16) -> (r: u16)
        ensures
            r == (value + 1) % 0x10000,
            *final(self) == *old(self),
    {
        if value == 0xFFFF {
            0
        } else {
            value + 1
        }
    }

    /// Decrement a byte: Z from the result, N set, H when the low nibble
    /// was zero, C kept.
    fn decrement_8bit(&mut self, value: u8) -> (r: u8)
        ensures
            r == (value - 1) % 256,
            final(self).registers.f.zero == (r == 0),
            final(self).registers.f.subtract,
            final(self).registers.f.half_carry == (value % 16 == 0),
            final(self).registers.f.carry == old(self).registers.f.carry,
            spec_same_but_flags(*old(self), *final(self)),
    {
        let result = if value == 0 {
            255
        } else {
            value - 1
        };
        self.registers.f.zero = result == 0;
        self.registers.f.subtract = true;
        self.registers.f.half_carry = value % 16 == 0;
        result
    }

    fn decrement_16bit(&mut self, value: u16) -> (r: u16)
        ensures
            r == (value - 1) % 0x10000,
            *final(self) == *old(self),
    {
        if value == 0 {
            0xFFFF
        } else {
            value - 1
        }
    }

    /// HL plus a pair: N cleared, H from bit 11, C from bit 15, Z kept.
    fn add_hl(&mut self, value: u16) -> (r: u16)
        ensures
            ({
                let hl = spec_pair(old(self).registers.h, old(self).registers.l);
                &&& r == (hl + value) % 0x10000
                &&& !final(self).registers.f.subtract
                &&& final(self).registers.f.carry == (hl + value > 0xFFFF)
                &&& final(self).registers.f.half_carry == (hl % 0x1000 + value % 0x1000 > 0xFFF)
                &&& final(self).registers.f.zero == old(self).registers.f.zero
                &&& spec_same_but_flags(*old(self), *final(self))
            }),
    {
        let hl = self.registers.get_hl();
        let sum: u32 = hl as u32 + value as u32;
        self.registers.f.carry = sum > 0xFFFF;
        self.registers.f.subtract = false;
        self.registers.f.half_carry = hl % 0x1000 + value % 0x1000 > 0xFFF;
        (sum % 0x10000) as u16
    }

    /// Test one bit: Z set exactly when the bit is clear, N cleared, H
    /// set, C kept.
    fn bit_test(&mut self, value: u8, bit_position: BitPosition)
        ensures
            final(self).registers.f.zero == ((value / spec_bit_power(
                spec_bit_index(bit_position),
            ) as u8) % 2 == 0),
            !final(self).registers.f.subtract,
            final(self).registers.f.half_carry,
            final(self).registers.f.carry == old(self).registers.f.carry,
            spec_same_but_flags(*old(self), *final(self)),
    {
        let mask = CPU::bit_mask(bit_position);
        self.registers.f.zero = (value / mask) % 2 == 0;
        self.registers.f.subtract = false;
        self.registers.f.half_carry = true;
    }

    fn bit_mask(bit_position: BitPosition) -> (r: u8)
        ensures
            r == spec_bit_power(spec_bit_index(bit_position)),
    {
        match bit_position {
            BitPosition::B0 => 1,
            BitPosition::B1 => 2,
            BitPosition::B2 => 4,
            BitPosition::B3 => 8,
            BitPosition::B4 => 16,
            BitPosition::B5 => 32,
            BitPosition::B6 => 64,
            BitPosition::B7 => 128,
        }
    }

    /// Clear one bit; the flags are untouched.
    fn bit_reset(&mut self, value: u8, bit_position: BitPosition) -> (r: u8)
        ensures
            r == value & !(spec_bit_power(spec_bit_index(bit_position)) as u8),
            *final(self) == *old(self),
    {
        let mask = CPU::bit_mask(bit_position);
        value & !mask
    }

    /// Set one bit; the flags are untouched.
    fn bit_set(&mut self, value: u8, bit_position: BitPosition) -> (r: u8)
        ensures
            r == value | spec_bit_power(spec_bit_index(bit_position)) as u8,
            *final(self) == *old(self),
    {
        let mask = CPU::bit_mask(bit_position);
        value | mask
    }

    /// Rotate right through the carry flag: the carry enters at bit 7 and
    /// bit 0 leaves into the carry.
    fn rotate_right_through_carry(&mut self, value: u8, set_zero: bool) -> (r: u8)
        ensures
            r == (if old(self).registers.f.carry {
                128int
            } else {
                0int
            }) + value / 2,
            final(self).registers.f.zero == (set_zero && r == 0),
            !final(self).registers.f.subtract,
            !final(self).registers.f.half_carry,
            final(self).registers.f.carry == (value % 2 == 1),
            spec_same_but_flags(*old(self), *final(self)),
    {
        let carry_bit: u8 = if self.registers.f.carry {
            128
        } else {
            0
        };
        let new_value = carry_bit + value / 2;
        self.registers.f.zero = set_zero && new_value == 0;
        self.registers.f.subtract = false;
        self.registers.f.half_carry = false;
        self.registers.f.carry = value % 2 == 1;
        new_value
    }

    /// Rotate left through the carry flag: the carry enters at bit 0 and
    /// bit 7 leaves into the carry.
    fn rotate_left_through_carry(&mut self, value: u8, set_zero: bool) -> (r: u8)
        ensures
            r == (value % 128) * 2 + (if old(self).registers.f.carry {
                1int
            } else {
                0int
            }),
            final(self).registers.f.zero == (set_zero && r == 0),
            !final(self).registers.f.subtract,
            !final(self).registers.f.half_carry,
            final(self).registers.f.carry == (value >= 128),
            spec_same_but_flags(*old(self), *final(self)),
    {
        let carry_bit: u8 = if self.registers.f.carry {
            1
        } else {
            0
        };
        let new_value = (value % 128) * 2 + carry_bit;
        self.registers.f.zero = set_zero && new_value == 0;
        self.registers.f.subtract = false;
        self.registers.f.half_carry = false;
        self.registers.f.carry = value >= 128;
        new_value
    }

    /// Rotate right: bit 0 wraps to bit 7 and also sets the carry.
    fn rotate_right(&mut self, value: u8, set_zero: bool) -> (r: u8)
        ensures
            r == (value % 2) * 128 + value / 2,
            final(self).registers.f.zero == (set_zero && r == 0),
            !final(self).registers.f.subtract,
            !final(self).registers.f.half_carry,
            final(self).registers.f.carry == (value % 2 == 1),
            spec_same_but_flags(*old(self), *final(self)),
    {
        let new_value = (value % 2) * 128 + value / 2;
        self.registers.f.zero = set_zero && new_value == 0;
        self.registers.f.subtract = false;
        self.registers.f.half_carry = false;
        self.registers.f.carry = value % 2 == 1;
        new_value
    }

    /// Rotate left: bit 7 wraps to bit 0 and also sets the carry.
    fn rotate_left(&mut self, value: u8, set_zero: bool) -> (r: u8)
        ensures
            r == (value % 128) * 2 + value / 128,
            final(self).registers.f.zero == (set_zero && r == 0),
            !final(self).registers.f.subtract,
            !final(self).registers.f.half_carry,
            final(self).registers.f.carry == (value >= 128),
            spec_same_but_flags(*old(self), *final(self)),
    {
        let new_value = (value % 128) * 2 + value / 128;
        self.registers.f.zero = set_zero && new_value == 0;
        self.registers.f.subtract = false;
        self.registers.f.half_carry = false;
        self.registers.f.carry = value >= 128;
        new_value
    }

    /// Shift right, a zero entering at bit 7; bit 0 leaves into the carry.
    fn shift_right_logical(&mut self, value: u8) -> (r: u8)
        ensures
            r == value / 2,
            final(self).registers.f.zero == (r == 0),
            !final(self).registers.f.subtract,
            !final(self).registers.f.half_carry,
            final(self).registers.f.carry == (value % 2 == 1),
            spec_same_but_flags(*old(self), *final(self)),
    {
        let new_value = value / 2;
        self.registers.f.zero = new_value == 0;
        self.registers.f.subtract = false;
        self.registers.f.half_carry = false;
        self.registers.f.carry = value % 2 == 1;
        new_value
    }

    /// Shift left; bit 7 leaves into the carry.
    fn shift_left_arithmetic(&mut self, value: u8) -> (r: u8)
        ensures
            r == (value % 128) * 2,
            final(self).registers.f.zero == (r == 0),
            !final(self).registers.f.subtract,
            !final(self).registers.f.half_carry,
            final(self).registers.f.carry == (value >= 128),
            spec_same_but_flags(*old(self), *final(self)),
    {
        let new_value = (value % 128) * 2;
        self.registers.f.zero = new_value == 0;
        self.registers.f.subtract = false;
        self.registers.f.half_carry = false;
        self.registers.f.carry = value >= 128;
        new_value
    }

    /// Shift right keeping the sign bit; bit 0 leaves into the carry.
    fn shift_right_arithmetic(&mut self, value: u8) -> (r: u8)
        ensures
            r == (value / 128) * 128 + value / 2,
            final(self).registers.f.zero == (r == 0),
            !final(self).registers.f.subtract,
            !final(self).registers.f.half_carry,
            final(self).registers.f.carry == (value % 2 == 1),
            spec_same_but_flags(*old(self), *final(self)),
    {
        let new_value = (value / 128) * 128 + value / 2;
        self.registers.f.zero = new_value == 0;
        self.registers.f.subtract = false;
        self.registers.f.half_carry = false;
        self.registers.f.carry = value % 2 == 1;
        new_value
    }

    /// Swap the two nibbles: Z from the result, the other flags cleared.
    fn swap_nibble(&mut self, value: u8) -> (r: u8)
        ensures
            r == (value % 16) * 16 + value / 16,
            final(self).registers.f.zero == (r == 0),
            !final(self).registers.f.subtract,
            !final(self).registers.f.half_carry,
            !final(self).registers.f.carry,
            spec_same_but_flags(*old(self), *final(self)),
    {
        let new_value = (value % 16) * 16 + value / 16;
        self.registers.f.zero = new_value == 0;
        self.registers.f.subtract = false;
        self.registers.f.half_carry = false;
        self.registers.f.carry = false;
        new_value
    }

    /// Decimal-adjust a byte after BCD arithmetic: outside a subtraction,
    /// 0x60 is added when C is set or the byte exceeds 0x99, which sets C,
    /// and 0x06 when H is set or the low nibble exceeds 9; after a
    /// subtraction the corresponding amounts are taken back and C is kept.
    fn decimal_adjust(&mut self, value: u8) -> (r: u8)
        ensures
            r == spec_decimal_adjust(old(self).registers.f, value).0,
            final(self).registers.f.carry == spec_decimal_adjust(old(self).registers.f, value).1,
            final(self).registers.f.zero == old(self).registers.f.zero,
            final(self).registers.f.subtract == old(self).registers.f.subtract,
            final(self).registers.f.half_carry == old(self).registers.f.half_carry,
            spec_same_but_flags(*old(self), *final(self)),
    {
        let mut carry = false;
        let result = if !self.registers.f.subtract {
            let mut result: u16 = value as u16;
            if self.registers.f.carry || value > 0x99 {
                result = (result + 0x60) % 256;
                carry = true;
            }
            if self.registers.f.half_carry || value % 16 > 0x09 {
                result = (result + 0x06) % 256;
            }
            result as u8
        } else if self.registers.f.carry {
            carry = true;
            let taken: u16 = if self.registers.f.half_carry {
                0x9A
            } else {
                0xA0
            };
            ((value as u16 + taken) % 256) as u8
        } else if self.registers.f.half_carry {
            ((value as u16 + 0xFA) % 256) as u8
        } else {
            value
        };
        self.registers.f.carry = carry;
        result
    }
}

/// Two to the given power, for bit masks up to bit 7.
pub open spec fn spec_bit_power(index: u8) -> int {
    if index == 0 {
        1
    } else if index == 1 {
        2
    } else if index == 2 {
        4
    } else if index == 3 {
        8
    } else if index == 4 {
        16
    } else if index == 5 {
        32
    } else if index == 6 {
        64
    } else {
        128
    }
}

/// The adjusted byte and new carry of a decimal adjust under the given
/// flags.
pub open spec fn spec_decimal_adjust(f: FlagsRegister, value: u8) -> (u8, bool) {
    if !f.subtract {
        let first = if f.carry || value > 0x99 {
            (value + 0x60) % 256
        } else {
            value as int
        };
        let adjusted = if f.half_carry || value % 16 > 9 {
            (first + 0x06) % 256
        } else {
            first
        };
        (adjusted as u8, f.carry || value > 0x99)
    } else if f.carry {
        if f.half_carry {
            (((value + 0x9A) % 256) as u8, true)
        } else {
            (((value + 0xA0) % 256) as u8, true)
        }
    } else if f.half_carry {
        (((value + 0xFA) % 256) as u8, false)
    } else {
        (value, false)
    }
}


impl CPU {
    fn test_flag(&self, test: JumpTest) -> (r: bool)
        ensures
            r == spec_jump_taken(self.registers.f, test),
    {
        match test {
            JumpTest::NotZero => !self.registers.f.zero,
            JumpTest::Zero => self.registers.f.zero,
            JumpTest::NotCarry => !self.registers.f.carry,
            JumpTest::Carry => self.registers.f.carry,
            JumpTest::Always => true,
        }
    }

    /// An absolute jump: taken, it reads its target word; not taken, it
    /// falls through the three-byte instruction.
    fn jump(&mut self, should_jump: bool) -> (r: (u16, u16))
        requires
            old(self).bus.well_formed(),
        ensures
            *final(self) == *old(self),
            should_jump ==> r == (spec_read_word(old(self).bus@, spec_wrap16(old(self).pc + 1)), 16u16),
            !should_jump ==> r == (spec_wrap16(old(self).pc + 3), 12u16),
    {
        if should_jump {
            let addr = self.read_next_word();
            (addr, 16)
        } else {
            (self.pc.wrapping_add(3), 12)
        }
    }

    /// A relative jump: taken, it adds the signed displacement byte to the
    /// address after the two-byte instruction, wrapping.
    fn jump_relative(&mut self, should_jump: bool) -> (r: (u16, u16))
        requires
            old(self).bus.well_formed(),
        ensures
            *final(self) == *old(self),
            should_jump ==> r == (
                spec_wrap16(
                    spec_wrap16(old(self).pc + 2) + spec_signed(
                        spec_read_byte(old(self).bus@, spec_wrap16(old(self).pc + 1)),
                    ),
                ),
                12u16,
            ),
            !should_jump ==> r == (spec_wrap16(old(self).pc + 2), 8u16),
    {
        let next_pc = self.pc.wrapping_add(2);
        if should_jump {
            let offset = self.read_next_byte();
            let pc = if offset < 128 {
                next_pc.wrapping_add(offset as u16)
            } else {
                next_pc.wrapping_sub(256 - offset as u16)
            };
            (pc, 12)
        } else {
            (next_pc, 8)
        }
    }

    /// A call: taken, it reads its target word and pushes the address of
    /// the next instruction.
    fn call(&mut self, should_jump: bool) -> (r: (u16, u16))
        requires
            old(self).bus.well_formed(),
        ensures
            final(self).bus.well_formed(),
            final(self).pc == old(self).pc,
            final(self).registers == old(self).registers,
            final(self).is_halted == old(self).is_halted,
            final(self).interrupt_enabled == old(self).interrupt_enabled,
            final(self).interrupt_enable_pending == old(self).interrupt_enable_pending,
            should_jump ==> {
                &&& final(self).bus@ == spec_push(
                    old(self).bus@,
                    old(self).sp,
                    spec_wrap16(old(self).pc + 3),
                )
                &&& final(self).sp == spec_wrap16(old(self).sp - 2)
                &&& r == (spec_read_word(old(self).bus@, spec_wrap16(old(self).pc + 1)), 24u16)
            },
            !should_jump ==> final(self).bus == old(self).bus && final(self).sp == old(self).sp
                && r == (spec_wrap16(old(self).pc + 3), 12u16),
    {
        let next_pc = self.pc.wrapping_add(3);
        if should_jump {
            let target = self.read_next_word();
            self.push(next_pc);
            (target, 24)
        } else {
            (next_pc, 12)
        }
    }

    /// A return: taken, it pops the return address.
    fn return_(&mut self, should_jump: bool) -> (r: u16)
        requires
            old(self).bus.well_formed(),
        ensures
            final(self).bus == old(self).bus,
            final(self).pc == old(self).pc,
            final(self).registers == old(self).registers,
            final(self).is_halted == old(self).is_halted,
            final(self).interrupt_enabled == old(self).interrupt_enabled,
            final(self).interrupt_enable_pending == old(self).interrupt_enable_pending,
            should_jump ==> r == spec_pop_value(old(self).bus@, old(self).sp) && final(self).sp
                == spec_wrap16(old(self).sp + 2),
            !should_jump ==> r == spec_wrap16(old(self).pc + 1) && final(self).sp == old(self).sp,
    {
        if should_jump {
            self.pop()
        } else {
            self.pc.wrapping_add(1)
        }
    }

    /// A restart: push the address of the next instruction and hand back
    /// the fixed vector.
    fn restart(&mut self, address: RestartOffset) -> (r: u16)
        requires
            old(self).bus.well_formed(),
        ensures
            final(self).bus.well_formed(),
            final(self).bus@ == spec_push(
                old(self).bus@,
                old(self).sp,
                spec_wrap16(old(self).pc + 1),
            ),
            final(self).sp == spec_wrap16(old(self).sp - 2),
            final(self).pc == old(self).pc,
            final(self).registers == old(self).registers,
            final(self).is_halted == old(self).is_halted,
            final(self).interrupt_enabled == old(self).interrupt_enabled,
            final(self).interrupt_enable_pending == old(self).interrupt_enable_pending,
            r == spec_restart_address(address),
    {
        let next_pc = self.pc.wrapping_add(1);
        self.push(next_pc);
        address.address()
    }

    #[verifier::rlimit(100)]
    #[verifier::spinoff_prover]
    fn execute_misc(&mut self, instruction: Instruction) -> (r: (u16, u16))
        requires
            old(self).bus.well_formed(),
            matches!(
                instruction,
                Instruction::NOP | Instruction::HALT | Instruction::STOP | Instruction::DI
                    | Instruction::EI | Instruction::RETI | Instruction::CCF | Instruction::SCF
                    | Instruction::RRA | Instruction::RLA | Instruction::RRCA | Instruction::RLCA
                    | Instruction::CPL | Instruction::DAA
            ),
        ensures
            final(self).bus.well_formed(),
            ({
                let stepped = spec_exec_misc(old(self)@, instruction);
                &&& final(self)@ == stepped.0
                &&& r.0 == stepped.1
                &&& r.1 == stepped.2
            }),
            4 <= r.1 <= 24,
    {
        let ghost s0 = self@;
        let result = {
        let pc1 = self.pc.wrapping_add(1);
        match instruction {
            Instruction::NOP => (pc1, 4),
            Instruction::HALT => {
                self.is_halted = true;
                (pc1, 4)
            },
            Instruction::STOP => {
                self.is_halted = true;
                (pc1, 4)
            },
            Instruction::EI => {
                self.interrupt_enabled = true;
                self.interrupt_enable_pending = true;
                (pc1, 4)
            },
            Instruction::DI => {
                self.interrupt_enabled = false;
                (pc1, 4)
            },
            Instruction::RETI => {
                let pc = self.pop();
                self.interrupt_enabled = true;
                (pc, 16)
            },
            Instruction::CCF => {
                self.registers.f.subtract = false;
                self.registers.f.half_carry = false;
                self.registers.f.carry = !self.registers.f.carry;
                (pc1, 4)
            },
            Instruction::SCF => {
                self.registers.f.subtract = false;
                self.registers.f.half_carry = false;
                self.registers.f.carry = true;
                (pc1, 4)
            },
            Instruction::RRA => {
                let a = self.registers.a;
                self.registers.a = self.rotate_right_through_carry(a, false);
                (pc1, 4)
            },
            Instruction::RLA => {
                let a = self.registers.a;
                self.registers.a = self.rotate_left_through_carry(a, false);
                (pc1, 4)
            },
            Instruction::RRCA => {
                let a = self.registers.a;
                self.registers.a = self.rotate_right(a, false);
                (pc1, 4)
            },
            Instruction::RLCA => {
                let a = self.registers.a;
                self.registers.a = self.rotate_left(a, false);
                (pc1, 4)
            },
            Instruction::CPL => {
                let a = self.registers.a;
                self.registers.a = self.complement(a);
                (pc1, 4)
            },
            Instruction::DAA => {
                let a = self.registers.a;
                let value = self.decimal_adjust(a);
                self.registers.f.zero = value == 0;
                self.registers.f.half_carry = false;
                self.registers.a = value;
                (pc1, 4)
            },
            _ => {
                proof {
                    assert(false);
                }
                (pc1, 4)
            },
        }
            };
        proof {
            assert(({
                let stepped = spec_exec_misc(s0, instruction);
                &&& self@ == stepped.0
                &&& result.0 == stepped.1
                &&& result.1 == stepped.2
            })) by {
                reveal(spec_exec_misc);
            }
        }
        result
}

    #[verifier::rlimit(100)]
    #[verifier::spinoff_prover]
    fn execute_stack(&mut self, instruction: Instruction) -> (r: (u16, u16))
        requires
            old(self).bus.well_formed(),
            matches!(
                instruction,
                Instruction::PUSH(_) | Instruction::POP(_) | Instruction::RST(_)
                    | Instruction::CALL(_) | Instruction::RET(_)
            ),
        ensures
            final(self).bus.well_formed(),
            ({
                let stepped = spec_exec_stack(old(self)@, instruction);
                &&& final(self)@ == stepped.0
                &&& r.0 == stepped.1
                &&& r.1 == stepped.2
            }),
            4 <= r.1 <= 24,
    {
        let ghost s0 = self@;
        let result = {
        match instruction {
            Instruction::RST(offset) => {
                let target = self.restart(offset);
                (target, 16)
            },
            Instruction::PUSH(target) => {
                let value = match target {
                    StackTarget::AF => self.registers.get_af(),
                    StackTarget::BC => self.registers.get_bc(),
                    StackTarget::DE => self.registers.get_de(),
                    StackTarget::HL => self.registers.get_hl(),
                };
                self.push(value);
                (self.pc.wrapping_add(1), 16)
            },
            Instruction::POP(target) => {
                let result = self.pop();
                match target {
                    StackTarget::AF => self.registers.set_af(result),
                    StackTarget::BC => self.registers.set_bc(result),
                    StackTarget::DE => self.registers.set_de(result),
                    StackTarget::HL => self.registers.set_hl(result),
                }
                (self.pc.wrapping_add(1), 12)
            },
            Instruction::CALL(test) => {
                let jump_condition = self.test_flag(test);
                self.call(jump_condition)
            },
            Instruction::RET(test) => {
                let jump_condition = self.test_flag(test);
                let next_pc = self.return_(jump_condition);
                let always = matches!(test, JumpTest::Always);
                let cycles: u16 = if jump_condition && always {
                    16
                } else if jump_condition {
                    20
                } else {
                    8
                };
                (next_pc, cycles)
            },
            _ => {
                proof {
                    assert(false);
                }
                (0, 0)
            },
        }
            };
        proof {
            assert(({
                let stepped = spec_exec_stack(s0, instruction);
                &&& self@ == stepped.0
                &&& result.0 == stepped.1
                &&& result.1 == stepped.2
            })) by {
                reveal(spec_exec_stack);
            }
        }
        result
}

    #[verifier::rlimit(100)]
    #[verifier::spinoff_prover]
    fn execute_jump(&mut self, instruction: Instruction) -> (r: (u16, u16))
        requires
            old(self).bus.well_formed(),
            matches!(instruction, Instruction::JP(_) | Instruction::JR(_) | Instruction::JPHL),
        ensures
            final(self).bus.well_formed(),
            ({
                let stepped = spec_exec_jump(old(self)@, instruction);
                &&& final(self)@ == stepped.0
                &&& r.0 == stepped.1
                &&& r.1 == stepped.2
            }),
            4 <= r.1 <= 24,
    {
        let ghost s0 = self@;
        let result = {
        match instruction {
            Instruction::JP(test) => {
                let jump_condition = self.test_flag(test);
                self.jump(jump_condition)
            },
            Instruction::JR(test) => {
                let jump_condition = self.test_flag(test);
                self.jump_relative(jump_condition)
            },
            Instruction::JPHL => (self.registers.get_hl(), 4),
            _ => {
                proof {
                    assert(false);
                }
                (0, 0)
            },
        }
            };
        proof {
            assert(({
                let stepped = spec_exec_jump(s0, instruction);
                &&& self@ == stepped.0
                &&& result.0 == stepped.1
                &&& result.1 == stepped.2
            })) by {
                reveal(spec_exec_jump);
            }
        }
        result
}
}


impl CPU {
    #[verifier::rlimit(100)]
    #[verifier::spinoff_prover]
    fn execute_load_byte(&mut self, target: LoadByteTarget, source: LoadByteSource) -> (r: (
        u16,
        u16,
    ))
        requires
            old(self).bus.well_formed(),
        ensures
            final(self).bus.well_formed(),
            ({
                let stepped = spec_exec_load_byte(old(self)@, target, source);
                &&& final(self)@ == stepped.0
                &&& r.0 == stepped.1
                &&& r.1 == stepped.2
            }),
            4 <= r.1 <= 24,
    {
        let ghost s0 = self@;
        let value = match source {
            LoadByteSource::A => self.registers.a,
            LoadByteSource::B => self.registers.b,
            LoadByteSource::C => self.registers.c,
            LoadByteSource::D => self.registers.d,
            LoadByteSource::E => self.registers.e,
            LoadByteSource::H => self.registers.h,
            LoadByteSource::L => self.registers.l,
            LoadByteSource::D8 => self.read_next_byte(),
            LoadByteSource::HLI => self.read_byte_at_hl(),
        };
        match target {
            LoadByteTarget::A => self.registers.a = value,
            LoadByteTarget::B => self.registers.b = value,
            LoadByteTarget::C => self.registers.c = value,
            LoadByteTarget::D => self.registers.d = value,
            LoadByteTarget::E => self.registers.e = value,
            LoadByteTarget::H => self.registers.h = value,
            LoadByteTarget::L => self.registers.l = value,
            LoadByteTarget::HLI => self.write_byte_at_hl(value),
        }
        let cycles: u16 = if matches!(source, LoadByteSource::D8) {
            if matches!(target, LoadByteTarget::HLI) {
                12
            } else {
                8
            }
        } else if matches!(source, LoadByteSource::HLI) || matches!(target, LoadByteTarget::HLI) {
            8
        } else {
            4
        };
        let result = if matches!(source, LoadByteSource::D8) {
            (self.pc.wrapping_add(2), cycles)
        } else {
            (self.pc.wrapping_add(1), cycles)
        };
        proof {
            assert(({
                let stepped = spec_exec_load_byte(s0, target, source);
                &&& self@ == stepped.0
                &&& result.0 == stepped.1
                &&& result.1 == stepped.2
            })) by {
                reveal(spec_exec_load_byte);
            }
        }
        result
    }

    #[verifier::rlimit(100)]
    #[verifier::spinoff_prover]
    fn execute_load_word(&mut self, target: LoadWordTarget) -> (r: (u16, u16))
        requires
            old(self).bus.well_formed(),
        ensures
            final(self).bus.well_formed(),
            ({
                let stepped = spec_exec_load_word(old(self)@, target);
                &&& final(self)@ == stepped.0
                &&& r.0 == stepped.1
                &&& r.1 == stepped.2
            }),
            4 <= r.1 <= 24,
    {
        let ghost s0 = self@;
        let value = self.read_next_word();
        match target {
            LoadWordTarget::BC => self.registers.set_bc(value),
            LoadWordTarget::DE => self.registers.set_de(value),
            LoadWordTarget::HL => self.registers.set_hl(value),
            LoadWordTarget::SP => self.sp = value,
        }
        let result = (self.pc.wrapping_add(3), 12u16);
        proof {
            assert(({
                let stepped = spec_exec_load_word(s0, target);
                &&& self@ == stepped.0
                &&& result.0 == stepped.1
                &&& result.1 == stepped.2
            })) by {
                reveal(spec_exec_load_word);
            }
        }
        result
    }

    #[verifier::rlimit(100)]
    #[verifier::spinoff_prover]
    fn execute_store_indirect(&mut self, target: Indirect) -> (r: (u16, u16))
        requires
            old(self).bus.well_formed(),
        ensures
            final(self).bus.well_formed(),
            ({
                let stepped = spec_exec_store_indirect(old(self)@, target);
                &&& final(self)@ == stepped.0
                &&& r.0 == stepped.1
                &&& r.1 == stepped.2
            }),
            4 <= r.1 <= 24,
    {
        let ghost s0 = self@;
        let pc1 = self.pc.wrapping_add(1);
        let pc3 = self.pc.wrapping_add(3);
        match target {
            Indirect::BC => {
                let address = self.registers.get_bc();
                let a = self.registers.a;
                self.store_byte(address, a);
            },
            Indirect::DE => {
                let address = self.registers.get_de();
                let a = self.registers.a;
                self.store_byte(address, a);
            },
            Indirect::HLPlus => {
                let hl = self.registers.get_hl();
                self.registers.set_hl(hl.wrapping_add(1));
                let a = self.registers.a;
                self.store_byte(hl, a);
            },
            Indirect::HLMinus => {
                let hl = self.registers.get_hl();
                self.registers.set_hl(hl.wrapping_sub(1));
                let a = self.registers.a;
                self.store_byte(hl, a);
            },
            Indirect::Word => {
                let address = self.read_next_word();
                let a = self.registers.a;
                self.store_byte(address, a);
            },
            Indirect::LastByte => {
                let address = 0xFF00 + self.registers.c as u16;
                let a = self.registers.a;
                self.store_byte(address, a);
            },
        }
        let result = if matches!(target, Indirect::Word) {
            (pc3, 16u16)
        } else {
            (pc1, 8u16)
        };
        proof {
            assert(({
                let stepped = spec_exec_store_indirect(s0, target);
                &&& self@ == stepped.0
                &&& result.0 == stepped.1
                &&& result.1 == stepped.2
            })) by {
                reveal(spec_exec_store_indirect);
            }
        }
        result
    }

    #[verifier::rlimit(100)]
    #[verifier::spinoff_prover]
    fn execute_load_indirect(&mut self, target: Indirect) -> (r: (u16, u16))
        requires
            old(self).bus.well_formed(),
        ensures
            final(self).bus.well_formed(),
            ({
                let stepped = spec_exec_load_indirect(old(self)@, target);
                &&& final(self)@ == stepped.0
                &&& r.0 == stepped.1
                &&& r.1 == stepped.2
            }),
            4 <= r.1 <= 24,
    {
        let ghost s0 = self@;
        let pc1 = self.pc.wrapping_add(1);
        let pc3 = self.pc.wrapping_add(3);
        match target {
            Indirect::BC => {
                self.registers.a = self.bus.read_byte(self.registers.get_bc());
            },
            Indirect::DE => {
                self.registers.a = self.bus.read_byte(self.registers.get_de());
            },
            Indirect::HLPlus => {
                let hl = self.registers.get_hl();
                self.registers.set_hl(hl.wrapping_add(1));
                self.registers.a = self.bus.read_byte(hl);
            },
            Indirect::HLMinus => {
                let hl = self.registers.get_hl();
                self.registers.set_hl(hl.wrapping_sub(1));
                self.registers.a = self.bus.read_byte(hl);
            },
            Indirect::Word => {
                let address = self.read_next_word();
                self.registers.a = self.bus.read_byte(address);
            },
            Indirect::LastByte => {
                self.registers.a = self.bus.read_byte(0xFF00 + self.registers.c as u16);
            },
        }
        let result = if matches!(target, Indirect::Word) {
            (pc3, 16u16)
        } else {
            (pc1, 8u16)
        };
        proof {
            assert(({
                let stepped = spec_exec_load_indirect(s0, target);
                &&& self@ == stepped.0
                &&& result.0 == stepped.1
                &&& result.1 == stepped.2
            })) by {
                reveal(spec_exec_load_indirect);
            }
        }
        result
    }

    #[verifier::rlimit(100)]
    #[verifier::spinoff_prover]
    fn execute_load_special(&mut self, load_type: LoadType) -> (r: (u16, u16))
        requires
            old(self).bus.well_formed(),
            matches!(
                load_type,
                LoadType::SPFromHL | LoadType::HLFromSPN | LoadType::IndirectFromSP
                    | LoadType::ByteAddressFromA | LoadType::AFromByteAddress
            ),
        ensures
            final(self).bus.well_formed(),
            ({
                let stepped = spec_exec_load_special(old(self)@, load_type);
                &&& final(self)@ == stepped.0
                &&& r.0 == stepped.1
                &&& r.1 == stepped.2
            }),
            4 <= r.1 <= 24,
    {
        let ghost s0 = self@;
        let result = match load_type {
            LoadType::SPFromHL => {
                self.sp = self.registers.get_hl();
                (self.pc.wrapping_add(1), 8)
            },
            LoadType::HLFromSPN => {
                let raw = self.read_next_byte();
                let extended: u16 = if raw < 128 {
                    raw as u16
                } else {
                    raw as u16 + 0xFF00
                };
                let value = self.sp.wrapping_add(extended);
                self.registers.set_hl(value);
                self.registers.f.zero = false;
                self.registers.f.subtract = false;
                self.registers.f.half_carry = self.sp % 16 + extended % 16 > 15;
                self.registers.f.carry = self.sp % 256 + extended % 256 > 255;
                (self.pc.wrapping_add(2), 12)
            },
            LoadType::IndirectFromSP => {
                let address = self.read_next_word();
                let sp = self.sp;
                self.store_byte(address, (sp % 256) as u8);
                self.store_byte(address.wrapping_add(1), (sp / 256) as u8);
                (self.pc.wrapping_add(3), 20)
            },
            LoadType::ByteAddressFromA => {
                let address_offset = self.read_next_byte();
                let address = 0xFF00 + address_offset as u16;
                let a = self.registers.a;
                self.store_byte(address, a);
                (self.pc.wrapping_add(2), 12)
            },
            LoadType::AFromByteAddress => {
                let address_offset = self.read_next_byte();
                let address = 0xFF00 + address_offset as u16;
                self.registers.a = self.bus.read_byte(address);
                (self.pc.wrapping_add(2), 12)
            },
            _ => {
                proof {
                    assert(false);
                }
                (0, 0)
            },
        };
        proof {
            assert(({
                let stepped = spec_exec_load_special(s0, load_type);
                &&& self@ == stepped.0
                &&& result.0 == stepped.1
                &&& result.1 == stepped.2
            })) by {
                reveal(spec_exec_load_special);
            }
        }
        result
    }

    fn execute_load(&mut self, instruction: Instruction) -> (r: (u16, u16))
        requires
            old(self).bus.well_formed(),
            instruction matches Instruction::LD(_),
        ensures
            final(self).bus.well_formed(),
            ({
                let stepped = spec_exec_load(old(self)@, instruction);
                &&& final(self)@ == stepped.0
                &&& r.0 == stepped.1
                &&& r.1 == stepped.2
            }),
            4 <= r.1 <= 24,
    {
        let load_type = match instruction {
            Instruction::LD(load_type) => load_type,
            _ => {
                proof {
                    assert(false);
                }
                LoadType::SPFromHL
            },
        };
        match load_type {
            LoadType::Byte(target, source) => self.execute_load_byte(target, source),
            LoadType::Word(target) => self.execute_load_word(target),
            LoadType::IndirectFromA(target) => self.execute_store_indirect(target),
            LoadType::AFromIndirect(target) => self.execute_load_indirect(target),
            _ => self.execute_load_special(load_type),
        }
    }

    fn arithmetic_operand(&self, target: ArithmeticTarget) -> (r: u8)
        requires
            self.bus.well_formed(),
        ensures
            r == spec_arith_operand(self@, target),
    {
        match target {
            ArithmeticTarget::A => self.registers.a,
            ArithmeticTarget::B => self.registers.b,
            ArithmeticTarget::C => self.registers.c,
            ArithmeticTarget::D => self.registers.d,
            ArithmeticTarget::E => self.registers.e,
            ArithmeticTarget::H => self.registers.h,
            ArithmeticTarget::L => self.registers.l,
            ArithmeticTarget::D8 => self.read_next_byte(),
            ArithmeticTarget::HLI => self.read_byte_at_hl(),
        }
    }

    #[verifier::rlimit(100)]
    #[verifier::spinoff_prover]
    fn execute_arithmetic(&mut self, instruction: Instruction) -> (r: (u16, u16))
        requires
            old(self).bus.well_formed(),
            matches!(
                instruction,
                Instruction::ADD(_) | Instruction::ADC(_) | Instruction::SUB(_)
                    | Instruction::SBC(_) | Instruction::AND(_) | Instruction::OR(_)
                    | Instruction::XOR(_) | Instruction::CP(_)
            ),
        ensures
            final(self).bus.well_formed(),
            ({
                let stepped = spec_exec_arithmetic(old(self)@, instruction);
                &&& final(self)@ == stepped.0
                &&& r.0 == stepped.1
                &&& r.1 == stepped.2
            }),
            4 <= r.1 <= 24,
    {
        let ghost s0 = self@;
        let result = {
        let register = match instruction {
            Instruction::ADD(t) => t,
            Instruction::ADC(t) => t,
            Instruction::SUB(t) => t,
            Instruction::SBC(t) => t,
            Instruction::AND(t) => t,
            Instruction::OR(t) => t,
            Instruction::XOR(t) => t,
            Instruction::CP(t) => t,
            _ => {
                proof {
                    assert(false);
                }
                ArithmeticTarget::A
            },
        };
        let value = self.arithmetic_operand(register);
        match instruction {
            Instruction::ADD(_) => {
                self.registers.a = self.add_without_carry(value);
            },
            Instruction::ADC(_) => {
                self.registers.a = self.add_with_carry(value);
            },
            Instruction::SUB(_) => {
                self.registers.a = self.sub_without_carry(value);
            },
            Instruction::SBC(_) => {
                self.registers.a = self.sub_with_carry(value);
            },
            Instruction::AND(_) => {
                self.registers.a = self.and(value);
            },
            Instruction::OR(_) => {
                self.registers.a = self.or(value);
            },
            Instruction::XOR(_) => {
                self.registers.a = self.xor(value);
            },
            Instruction::CP(_) => {
                self.compare(value);
            },
            _ => {
                proof {
                    assert(false);
                }
            },
        }
        if matches!(register, ArithmeticTarget::D8) {
            (self.pc.wrapping_add(2), 8)
        } else if matches!(register, ArithmeticTarget::HLI) {
            (self.pc.wrapping_add(1), 8)
        } else {
            (self.pc.wrapping_add(1), 4)
        }
            };
        proof {
            assert(({
                let stepped = spec_exec_arithmetic(s0, instruction);
                &&& self@ == stepped.0
                &&& result.0 == stepped.1
                &&& result.1 == stepped.2
            })) by {
                reveal(spec_exec_arithmetic);
            }
        }
        result
}

    #[verifier::rlimit(100)]
    #[verifier::spinoff_prover]
    fn execute_add_hl(&mut self, register: ArithmeticHLTarget) -> (r: (u16, u16))
        requires
            old(self).bus.well_formed(),
        ensures
            final(self).bus.well_formed(),
            ({
                let stepped = spec_exec_wide_arithmetic(old(self)@, Instruction::ADDHL(register));
                &&& final(self)@ == stepped.0
                &&& r.0 == stepped.1
                &&& r.1 == stepped.2
            }),
            4 <= r.1 <= 24,
    {
        let ghost s0 = self@;
        let value = match register {
            ArithmeticHLTarget::BC => self.registers.get_bc(),
            ArithmeticHLTarget::DE => self.registers.get_de(),
            ArithmeticHLTarget::HL => self.registers.get_hl(),
            ArithmeticHLTarget::SP => self.sp,
        };
        let result = self.add_hl(value);
        self.registers.set_hl(result);
        let outcome = (self.pc.wrapping_add(1), 8u16);
        proof {
            assert(({
                let stepped = spec_exec_wide_arithmetic(s0, Instruction::ADDHL(register));
                &&& self@ == stepped.0
                &&& outcome.0 == stepped.1
                &&& outcome.1 == stepped.2
            })) by {
                reveal(spec_exec_wide_arithmetic);
            }
        }
        outcome
    }

    #[verifier::rlimit(100)]
    #[verifier::spinoff_prover]
    fn execute_add_sp(&mut self) -> (r: (u16, u16))
        requires
            old(self).bus.well_formed(),
        ensures
            final(self).bus.well_formed(),
            ({
                let stepped = spec_exec_wide_arithmetic(old(self)@, Instruction::ADDSP);
                &&& final(self)@ == stepped.0
                &&& r.0 == stepped.1
                &&& r.1 == stepped.2
            }),
            4 <= r.1 <= 24,
    {
        let ghost s0 = self@;
        let raw = self.read_next_byte();
        let extended: u16 = if raw < 128 {
            raw as u16
        } else {
            raw as u16 + 0xFF00
        };
        let result = self.sp.wrapping_add(extended);
        self.registers.f.zero = false;
        self.registers.f.subtract = false;
        self.registers.f.half_carry = self.sp % 16 + extended % 16 > 15;
        self.registers.f.carry = self.sp % 256 + extended % 256 > 255;
        self.sp = result;
        let outcome = (self.pc.wrapping_add(2), 16u16);
        proof {
            assert(({
                let stepped = spec_exec_wide_arithmetic(s0, Instruction::ADDSP);
                &&& self@ == stepped.0
                &&& outcome.0 == stepped.1
                &&& outcome.1 == stepped.2
            })) by {
                reveal(spec_exec_wide_arithmetic);
            }
        }
        outcome
    }

    fn execute_wide_arithmetic(&mut self, instruction: Instruction) -> (r: (u16, u16))
        requires
            old(self).bus.well_formed(),
            matches!(instruction, Instruction::ADDHL(_) | Instruction::ADDSP),
        ensures
            final(self).bus.well_formed(),
            ({
                let stepped = spec_exec_wide_arithmetic(old(self)@, instruction);
                &&& final(self)@ == stepped.0
                &&& r.0 == stepped.1
                &&& r.1 == stepped.2
            }),
            4 <= r.1 <= 24,
    {
        match instruction {
            Instruction::ADDHL(register) => self.execute_add_hl(register),
            Instruction::ADDSP => self.execute_add_sp(),
            _ => {
                proof {
                    assert(false);
                }
                (0, 0)
            },
        }
    }

    #[verifier::rlimit(100)]
    #[verifier::spinoff_prover]
    fn execute_bump_register(&mut self, increment: bool, register: IncDecTarget) -> (r: (u16, u16))
        requires
            old(self).bus.well_formed(),
            matches!(
                register,
                IncDecTarget::A | IncDecTarget::B | IncDecTarget::C | IncDecTarget::D
                    | IncDecTarget::E | IncDecTarget::H | IncDecTarget::L
            ),
        ensures
            final(self).bus.well_formed(),
            ({
                let stepped = spec_exec_inc_dec(
                    old(self)@,
                    if increment {
                        Instruction::INC(register)
                    } else {
                        Instruction::DEC(register)
                    },
                );
                &&& final(self)@ == stepped.0
                &&& r.0 == stepped.1
                &&& r.1 == stepped.2
            }),
            4 <= r.1 <= 24,
    {
        let ghost s0 = self@;
        let ghost i = if increment {
            Instruction::INC(register)
        } else {
            Instruction::DEC(register)
        };
        match register {
            IncDecTarget::A => {
                let v = self.registers.a;
                self.registers.a = if increment {
                    self.increment_8bit(v)
                } else {
                    self.decrement_8bit(v)
                };
            },
            IncDecTarget::B => {
                let v = self.registers.b;
                self.registers.b = if increment {
                    self.increment_8bit(v)
                } else {
                    self.decrement_8bit(v)
                };
            },
            IncDecTarget::C => {
                let v = self.registers.c;
                self.registers.c = if increment {
                    self.increment_8bit(v)
                } else {
                    self.decrement_8bit(v)
                };
            },
            IncDecTarget::D => {
                let v = self.registers.d;
                self.registers.d = if increment {
                    self.increment_8bit(v)
                } else {
                    self.decrement_8bit(v)
                };
            },
            IncDecTarget::E => {
                let v = self.registers.e;
                self.registers.e = if increment {
                    self.increment_8bit(v)
                } else {
                    self.decrement_8bit(v)
                };
            },
            IncDecTarget::H => {
                let v = self.registers.h;
                self.registers.h = if increment {
                    self.increment_8bit(v)
                } else {
                    self.decrement_8bit(v)
                };
            },
            IncDecTarget::L => {
                let v = self.registers.l;
                self.registers.l = if increment {
                    self.increment_8bit(v)
                } else {
                    self.decrement_8bit(v)
                };
            },
            _ => {
                proof {
                    assert(false);
                }
            },
        }
        let outcome = (self.pc.wrapping_add(1), 4u16);
        proof {
            assert(({
                let stepped = spec_exec_bump_reg8(s0, increment, register);
                &&& self@ == stepped.0
                &&& outcome.0 == stepped.1
                &&& outcome.1 == stepped.2
            })) by {
                reveal(spec_exec_bump_reg8);
            }
            assert(({
                let stepped = spec_exec_inc_dec(s0, i);
                &&& self@ == stepped.0
                &&& outcome.0 == stepped.1
                &&& outcome.1 == stepped.2
            })) by {
                reveal(spec_exec_inc_dec);
            }
        }
        outcome
    }

    #[verifier::rlimit(100)]
    #[verifier::spinoff_prover]
    fn execute_bump_pair(&mut self, increment: bool, register: IncDecTarget) -> (r: (u16, u16))
        requires
            old(self).bus.well_formed(),
            matches!(
                register,
                IncDecTarget::BC | IncDecTarget::DE | IncDecTarget::HL | IncDecTarget::SP
            ),
        ensures
            final(self).bus.well_formed(),
            ({
                let stepped = spec_exec_inc_dec(
                    old(self)@,
                    if increment {
                        Instruction::INC(register)
                    } else {
                        Instruction::DEC(register)
                    },
                );
                &&& final(self)@ == stepped.0
                &&& r.0 == stepped.1
                &&& r.1 == stepped.2
            }),
            4 <= r.1 <= 24,
    {
        let ghost s0 = self@;
        let ghost i = if increment {
            Instruction::INC(register)
        } else {
            Instruction::DEC(register)
        };
        match register {
            IncDecTarget::BC => {
                let v = self.registers.get_bc();
                let bumped = if increment {
                    self.increment_16bit(v)
                } else {
                    self.decrement_16bit(v)
                };
                self.registers.set_bc(bumped);
            },
            IncDecTarget::DE => {
                let v = self.registers.get_de();
                let bumped = if increment {
                    self.increment_16bit(v)
                } else {
                    self.decrement_16bit(v)
                };
                self.registers.set_de(bumped);
            },
            IncDecTarget::HL => {
                let v = self.registers.get_hl();
                let bumped = if increment {
                    self.increment_16bit(v)
                } else {
                    self.decrement_16bit(v)
                };
                self.registers.set_hl(bumped);
            },
            IncDecTarget::SP => {
                let v = self.sp;
                self.sp = if increment {
                    self.increment_16bit(v)
                } else {
                    self.decrement_16bit(v)
                };
            },
            _ => {
                proof {
                    assert(false);
                }
            },
        }
        let outcome = (self.pc.wrapping_add(1), 8u16);
        proof {
            assert(({
                let stepped = spec_exec_inc_dec(s0, i);
                &&& self@ == stepped.0
                &&& outcome.0 == stepped.1
                &&& outcome.1 == stepped.2
            })) by {
                reveal(spec_exec_inc_dec);
            }
        }
        outcome
    }

    #[verifier::rlimit(100)]
    #[verifier::spinoff_prover]
    fn execute_bump_memory(&mut self, increment: bool) -> (r: (u16, u16))
        requires
            old(self).bus.well_formed(),
        ensures
            final(self).bus.well_formed(),
            ({
                let stepped = spec_exec_inc_dec(
                    old(self)@,
                    if increment {
                        Instruction::INC(IncDecTarget::HLI)
                    } else {
                        Instruction::DEC(IncDecTarget::HLI)
                    },
                );
                &&& final(self)@ == stepped.0
                &&& r.0 == stepped.1
                &&& r.1 == stepped.2
            }),
            4 <= r.1 <= 24,
            4 <= r.1 <= 24,
    {
        let ghost s0 = self@;
        let ghost i = if increment {
            Instruction::INC(IncDecTarget::HLI)
        } else {
            Instruction::DEC(IncDecTarget::HLI)
        };
        let v = self.read_byte_at_hl();
        let bumped = if increment {
            self.increment_8bit(v)
        } else {
            self.decrement_8bit(v)
        };
        self.write_byte_at_hl(bumped);
        let outcome = (self.pc.wrapping_add(1), 12u16);
        proof {
            assert(({
                let stepped = spec_exec_inc_dec(s0, i);
                &&& self@ == stepped.0
                &&& outcome.0 == stepped.1
                &&& outcome.1 == stepped.2
            })) by {
                reveal(spec_exec_inc_dec);
            }
        }
        outcome
    }

    fn execute_inc_dec(&mut self, instruction: Instruction) -> (r: (u16, u16))
        requires
            old(self).bus.well_formed(),
            matches!(instruction, Instruction::INC(_) | Instruction::DEC(_)),
        ensures
            final(self).bus.well_formed(),
            ({
                let stepped = spec_exec_inc_dec(old(self)@, instruction);
                &&& final(self)@ == stepped.0
                &&& r.0 == stepped.1
                &&& r.1 == stepped.2
            }),
            4 <= r.1 <= 24,
    {
        let increment = instruction matches Instruction::INC(_);
        let register = match instruction {
            Instruction::INC(t) => t,
            Instruction::DEC(t) => t,
            _ => {
                proof {
                    assert(false);
                }
                IncDecTarget::A
            },
        };
        match register {
            IncDecTarget::HLI => self.execute_bump_memory(increment),
            IncDecTarget::BC => self.execute_bump_pair(increment, register),
            IncDecTarget::DE => self.execute_bump_pair(increment, register),
            IncDecTarget::HL => self.execute_bump_pair(increment, register),
            IncDecTarget::SP => self.execute_bump_pair(increment, register),
            _ => self.execute_bump_register(increment, register),
        }
    }

    fn prefix_operand(&self, target: PrefixTarget) -> (r: u8)
        requires
            self.bus.well_formed(),
        ensures
            r == spec_prefix_operand(self@, target),
    {
        match target {
            PrefixTarget::A => self.registers.a,
            PrefixTarget::B => self.registers.b,
            PrefixTarget::C => self.registers.c,
            PrefixTarget::D => self.registers.d,
            PrefixTarget::E => self.registers.e,
            PrefixTarget::H => self.registers.h,
            PrefixTarget::L => self.registers.l,
            PrefixTarget::HLI => self.read_byte_at_hl(),
        }
    }

    #[verifier::rlimit(100)]
    #[verifier::spinoff_prover]
    fn prefix_write_back(&mut self, target: PrefixTarget, value: u8)
        requires
            old(self).bus.well_formed(),
        ensures
            final(self).bus.well_formed(),
            final(self)@ == spec_prefix_store(old(self)@, target, value),
    {
        proof {
            reveal(spec_prefix_store);
        }
        match target {
            PrefixTarget::A => self.registers.a = value,
            PrefixTarget::B => self.registers.b = value,
            PrefixTarget::C => self.registers.c = value,
            PrefixTarget::D => self.registers.d = value,
            PrefixTarget::E => self.registers.e = value,
            PrefixTarget::H => self.registers.h = value,
            PrefixTarget::L => self.registers.l = value,
            PrefixTarget::HLI => self.write_byte_at_hl(value),
        }
    }

    #[verifier::rlimit(100)]
    #[verifier::spinoff_prover]
    fn execute_prefix(&mut self, instruction: Instruction) -> (r: (u16, u16))
        requires
            old(self).bus.well_formed(),
            matches!(
                instruction,
                Instruction::SRL(_) | Instruction::RR(_) | Instruction::RL(_)
                    | Instruction::RRC(_) | Instruction::RLC(_) | Instruction::SRA(_)
                    | Instruction::SLA(_) | Instruction::SWAP(_) | Instruction::BIT(_, _)
                    | Instruction::RES(_, _) | Instruction::SET(_, _)
            ),
        ensures
            final(self).bus.well_formed(),
            ({
                let stepped = spec_exec_prefix(old(self)@, instruction);
                &&& final(self)@ == stepped.0
                &&& r.0 == stepped.1
                &&& r.1 == stepped.2
            }),
            4 <= r.1 <= 24,
    {
        let ghost s0 = self@;
        let pc2 = self.pc.wrapping_add(2);
        let result = {
        let target = match instruction {
            Instruction::SRL(t) => t,
            Instruction::RR(t) => t,
            Instruction::RL(t) => t,
            Instruction::RRC(t) => t,
            Instruction::RLC(t) => t,
            Instruction::SRA(t) => t,
            Instruction::SLA(t) => t,
            Instruction::SWAP(t) => t,
            Instruction::BIT(t, _) => t,
            Instruction::RES(t, _) => t,
            Instruction::SET(t, _) => t,
            _ => {
                proof {
                    assert(false);
                }
                PrefixTarget::A
            },
        };
        let value = self.prefix_operand(target);
        match instruction {
            Instruction::SRL(_) => {
                let result = self.shift_right_logical(value);
                self.prefix_write_back(target, result);
            },
            Instruction::RR(_) => {
                let result = self.rotate_right_through_carry(value, true);
                self.prefix_write_back(target, result);
            },
            Instruction::RL(_) => {
                let result = self.rotate_left_through_carry(value, true);
                self.prefix_write_back(target, result);
            },
            Instruction::RRC(_) => {
                let result = self.rotate_right(value, true);
                self.prefix_write_back(target, result);
            },
            Instruction::RLC(_) => {
                let result = self.rotate_left(value, true);
                self.prefix_write_back(target, result);
            },
            Instruction::SRA(_) => {
                let result = self.shift_right_arithmetic(value);
                self.prefix_write_back(target, result);
            },
            Instruction::SLA(_) => {
                let result = self.shift_left_arithmetic(value);
                self.prefix_write_back(target, result);
            },
            Instruction::SWAP(_) => {
                let result = self.swap_nibble(value);
                self.prefix_write_back(target, result);
            },
            Instruction::BIT(_, position) => {
                self.bit_test(value, position);
            },
            Instruction::RES(_, position) => {
                let result = self.bit_reset(value, position);
                self.prefix_write_back(target, result);
            },
            Instruction::SET(_, position) => {
                let result = self.bit_set(value, position);
                self.prefix_write_back(target, result);
            },
            _ => {
                proof {
                    assert(false);
                }
            },
        }
        if matches!(target, PrefixTarget::HLI) {
            if matches!(instruction, Instruction::BIT(_, _)) {
                (pc2, 12)
            } else {
                (pc2, 16)
            }
        } else {
            (pc2, 8)
        }
            };
        proof {
            assert(({
                let stepped = spec_exec_prefix(s0, instruction);
                &&& self@ == stepped.0
                &&& result.0 == stepped.1
                &&& result.1 == stepped.2
            })) by {
                reveal(spec_exec_prefix);
            }
        }
        result
}

    /// Run one decoded instruction to completion: every memory access it
    /// makes, every register and flag it touches. The result is the program
    /// counter for the next step and the instruction's cycle cost; the
    /// contract pins both, along with the whole control state.
    pub fn execute(&mut self, instruction: Instruction) -> (r: (u16, u16))
        requires
            old(self).bus.well_formed(),
        ensures
            final(self).bus.well_formed(),
            ({
                let stepped = spec_execute(old(self)@, instruction);
                &&& final(self)@ == stepped.0
                &&& r.0 == stepped.1
                &&& r.1 == stepped.2
            }),
            4 <= r.1 <= 24,
    {
        match instruction {
            Instruction::LD(_) => self.execute_load(instruction),
            Instruction::ADD(_) => self.execute_arithmetic(instruction),
            Instruction::ADC(_) => self.execute_arithmetic(instruction),
            Instruction::SUB(_) => self.execute_arithmetic(instruction),
            Instruction::SBC(_) => self.execute_arithmetic(instruction),
            Instruction::AND(_) => self.execute_arithmetic(instruction),
            Instruction::OR(_) => self.execute_arithmetic(instruction),
            Instruction::XOR(_) => self.execute_arithmetic(instruction),
            Instruction::CP(_) => self.execute_arithmetic(instruction),
            Instruction::ADDHL(_) => self.execute_wide_arithmetic(instruction),
            Instruction::ADDSP => self.execute_wide_arithmetic(instruction),
            Instruction::INC(_) => self.execute_inc_dec(instruction),
            Instruction::DEC(_) => self.execute_inc_dec(instruction),
            Instruction::PUSH(_) => self.execute_stack(instruction),
            Instruction::POP(_) => self.execute_stack(instruction),
            Instruction::RST(_) => self.execute_stack(instruction),
            Instruction::CALL(_) => self.execute_stack(instruction),
            Instruction::RET(_) => self.execute_stack(instruction),
            Instruction::JP(_) => self.execute_jump(instruction),
            Instruction::JR(_) => self.execute_jump(instruction),
            Instruction::JPHL => self.execute_jump(instruction),
            Instruction::SRL(_) => self.execute_prefix(instruction),
            Instruction::RR(_) => self.execute_prefix(instruction),
            Instruction::RL(_) => self.execute_prefix(instruction),
            Instruction::RRC(_) => self.execute_prefix(instruction),
            Instruction::RLC(_) => self.execute_prefix(instruction),
            Instruction::SRA(_) => self.execute_prefix(instruction),
            Instruction::SLA(_) => self.execute_prefix(instruction),
            Instruction::SWAP(_) => self.execute_prefix(instruction),
            Instruction::BIT(_, _) => self.execute_prefix(instruction),
            Instruction::RES(_, _) => self.execute_prefix(instruction),
            Instruction::SET(_, _) => self.execute_prefix(instruction),
            _ => self.execute_misc(instruction),
        }
    }
}


/// Which vector a dispatch enters: the lowest-numbered bit set in both the
/// enable and the pending register, V-blank highest priority down to
/// joypad, or nothing.
pub open spec fn spec_pending_vector(enabled: Interrupts, pending: Interrupts) -> Option<
    InterruptLocation,
> {
    if enabled.vertical_blank && pending.vertical_blank {
        Some(InterruptLocation::VBlank)
    } else if enabled.lcd_c && pending.lcd_c {
        Some(InterruptLocation::LCD)
    } else if enabled.timer && pending.timer {
        Some(InterruptLocation::Timer)
    } else if enabled.serial_transfer && pending.serial_transfer {
        Some(InterruptLocation::Serial)
    } else if enabled.joypad && pending.joypad {
        Some(InterruptLocation::Joypad)
    } else {
        None
    }
}

/// The pending register with one vector's bit cleared.
pub open spec fn spec_clear_interrupt(flags: Interrupts, location: InterruptLocation) -> Interrupts {
    match location {
        InterruptLocation::VBlank => Interrupts { vertical_blank: false, ..flags },
        InterruptLocation::LCD => Interrupts { lcd_c: false, ..flags },
        InterruptLocation::Timer => Interrupts { timer: false, ..flags },
        InterruptLocation::Serial => Interrupts { serial_transfer: false, ..flags },
        InterruptLocation::Joypad => Interrupts { joypad: false, ..flags },
    }
}

/// The dispatch phase at the end of a step: with an EI still taking
/// effect, dispatch is skipped once; otherwise, with the master enable set
/// and some vector pending and enabled, the lowest-numbered one is entered:
/// its pending bit clears, the master enable drops, PC is pushed and the
/// bus ticks the twelve dispatch cycles. The flag says whether a vector was
/// entered.
#[verifier::opaque]
pub open spec fn spec_interrupt_phase(s: CpuV) -> (CpuV, bool) {
    if s.interrupt_enable_pending {
        (CpuV { interrupt_enable_pending: false, ..s }, false)
    } else if s.interrupt_enabled {
        match spec_pending_vector(s.bus.interrupts_enabled, s.bus.interrupt_flags) {
            Some(location) => {
                let cleared = BusV {
                    interrupt_flags: spec_clear_interrupt(s.bus.interrupt_flags, location),
                    ..s.bus
                };
                (
                    CpuV {
                        interrupt_enabled: false,
                        pc: spec_interrupt_address(location),
                        sp: spec_wrap16(s.sp - 2),
                        bus: spec_bus_step(spec_push(cleared, s.sp, s.pc), 12),
                        ..s
                    },
                    true,
                )
            },
            None => (s, false),
        }
    } else {
        (s, false)
    }
}

/// One full step of the core: fetch the byte at PC, handling the prefix by
/// fetching a second byte; run the decoded instruction; tick the bus by its
/// cycle cost; wake from HALT once any interrupt is pending; advance PC
/// unless halted; then run the dispatch phase, which charges twelve further
/// cycles when it enters a vector.
#[verifier::opaque]
pub open spec fn spec_cpu_step(s: CpuV) -> (CpuV, u16) {
    let first = spec_read_byte(s.bus, s.pc);
    let prefixed = first == 0xCB;
    let opcode = if prefixed {
        spec_read_byte(s.bus, spec_wrap16(s.pc + 1))
    } else {
        first
    };
    let instruction = spec_decode(opcode, prefixed)->0;
    let executed = spec_execute(s, instruction);
    let cycles = executed.2;
    let ticked = CpuV { bus: spec_bus_step(executed.0.bus, cycles), ..executed.0 };
    let woken = if spec_interrupts_any(ticked.bus.interrupt_flags) {
        CpuV { is_halted: false, ..ticked }
    } else {
        ticked
    };
    let advanced = if !woken.is_halted {
        CpuV { pc: executed.1, ..woken }
    } else {
        woken
    };
    let dispatched = spec_interrupt_phase(advanced);
    (
        dispatched.0,
        if dispatched.1 {
            (cycles + 12) as u16
        } else {
            cycles
        },
    )
}

impl CPU {
    /// The byte the next fetch decodes, and whether it follows the prefix.
    pub open spec fn spec_fetched(self) -> (u8, bool) {
        let first = spec_read_byte(self.bus@, self.pc);
        if first == 0xCB {
            (spec_read_byte(self.bus@, spec_wrap16(self.pc + 1)), true)
        } else {
            (first, false)
        }
    }

    /// Enter one interrupt vector: the master enable drops, the current
    /// program counter is pushed, the program counter takes the vector's
    /// address, and the bus ticks the twelve dispatch cycles.
    fn service_interrupt(&mut self, location: InterruptLocation)
        requires
            old(self).bus.well_formed(),
        ensures
            final(self).bus.well_formed(),
            !final(self).interrupt_enabled,
            final(self).pc == spec_interrupt_address(location),
            final(self).sp == spec_wrap16(old(self).sp - 2),
            final(self).bus@ == spec_bus_step(
                spec_push(old(self).bus@, old(self).sp, old(self).pc),
                12,
            ),
            final(self).registers == old(self).registers,
            final(self).is_halted == old(self).is_halted,
            final(self).interrupt_enable_pending == old(self).interrupt_enable_pending,
    {
        self.interrupt_enabled = false;
        let pc = self.pc;
        self.push(pc);
        self.pc = location.address();
        self.bus.step(12);
    }

    #[verifier::rlimit(100)]
    #[verifier::spinoff_prover]
    fn interrupt_phase(&mut self) -> (dispatched: bool)
        requires
            old(self).bus.well_formed(),
        ensures
            final(self).bus.well_formed(),
            ({
                let phase = spec_interrupt_phase(old(self)@);
                &&& final(self)@ == phase.0
                &&& dispatched == phase.1
            }),
    {
        let ghost s0 = self@;
        let mut dispatched = false;
        if self.interrupt_enable_pending {
            self.interrupt_enable_pending = false;
        } else if self.interrupt_enabled {
            if self.bus.interrupts_enabled.vertical_blank && self.bus.interrupt_flags.vertical_blank {
                self.bus.interrupt_flags.vertical_blank = false;
                self.service_interrupt(InterruptLocation::VBlank);
                dispatched = true;
            } else if self.bus.interrupts_enabled.lcd_c && self.bus.interrupt_flags.lcd_c {
                self.bus.interrupt_flags.lcd_c = false;
                self.service_interrupt(InterruptLocation::LCD);
                dispatched = true;
            } else if self.bus.interrupts_enabled.timer && self.bus.interrupt_flags.timer {
                self.bus.interrupt_flags.timer = false;
                self.service_interrupt(InterruptLocation::Timer);
                dispatched = true;
            } else if self.bus.interrupts_enabled.serial_transfer
                && self.bus.interrupt_flags.serial_transfer {
                self.bus.interrupt_flags.serial_transfer = false;
                self.service_interrupt(InterruptLocation::Serial);
                dispatched = true;
            } else if self.bus.interrupts_enabled.joypad && self.bus.interrupt_flags.joypad {
                self.bus.interrupt_flags.joypad = false;
                self.service_interrupt(InterruptLocation::Joypad);
                dispatched = true;
            }
        }
        proof {
            assert(({
                let phase = spec_interrupt_phase(s0);
                &&& self@ == phase.0
                &&& dispatched == phase.1
            })) by {
                reveal(spec_interrupt_phase);
            }
        }
        dispatched
    }

    /// One full step: fetch the byte at PC, handling the 0xCB prefix by
    /// fetching a second byte; execute the decoded instruction; tick the
    /// bus by its cycle cost; wake from HALT once any interrupt bit is
    /// pending, enabled or not; advance PC unless halted; then, unless an
    /// EI is still taking effect, service at most one pending, enabled
    /// interrupt, the lowest-numbered first, for twelve further cycles. The
    /// result is the cycle count the step consumed.
    #[verifier::rlimit(100)]
    #[verifier::spinoff_prover]
    pub fn step(&mut self) -> (cycles: u16)
        requires
            old(self).bus.well_formed(),
            spec_decode(old(self).spec_fetched().0, old(self).spec_fetched().1) is Some,
        ensures
            final(self).bus.well_formed(),
            ({
                let stepped = spec_cpu_step(old(self)@);
                &&& final(self)@ == stepped.0
                &&& cycles == stepped.1
            }),
    {
        let ghost s0 = self@;
        let mut instruction_byte = self.bus.read_byte(self.pc);
        let prefixed = instruction_byte == 0xCB;
        if prefixed {
            instruction_byte = self.bus.read_byte(self.pc.wrapping_add(1));
        }
        let decoded = Instruction::from_byte(instruction_byte, prefixed);
        let (next_pc, executed_cycles) = match decoded {
            Some(instruction) => self.execute(instruction),
            None => {
                proof {
                    assert(false);
                }
                (0, 0)
            },
        };
        let mut cycles = executed_cycles;
        self.bus.step(cycles);
        if self.bus.interrupt_flags.any() {
            self.is_halted = false;
        }
        if !self.is_halted {
            self.pc = next_pc;
        }
        if self.interrupt_phase() {
            cycles = cycles + 12;
        }
        proof {
            assert(({
                let stepped = spec_cpu_step(s0);
                &&& self@ == stepped.0
                &&& cycles == stepped.1
            })) by {
                reveal(spec_cpu_step);
            }
        }
        cycles
    }
}

} // verus!
