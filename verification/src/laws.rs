//! The library's general laws, each proved over the same specification
//! functions the public contracts use.

use vstd::prelude::*;
use crate::flags_register::FlagsRegister;
use crate::flags_register::spec_flags_to_byte;
use crate::flags_register::spec_flags_from_byte;
use crate::registers::spec_pair;
use crate::registers::spec_high_byte;
use crate::registers::spec_low_byte;
use crate::instruction::spec_decode;
use crate::instruction::spec_is_illegal_opcode;
use crate::interrupts::Interrupts;
use crate::interrupts::InterruptLocation;
use crate::gpu::GpuV;
use crate::gpu::Mode;
use crate::gpu::spec_frame_position;
use crate::gpu::spec_gpu_step;
use crate::memory_bus::BusV;
use crate::memory_bus::spec_read_byte;
use crate::memory_bus::spec_write_byte;
use crate::memory_bus::spec_write_memory_byte;
use crate::cpu::CpuV;
use crate::cpu::spec_push;
use crate::cpu::spec_pop_value;
use crate::cpu::spec_wrap16;
use crate::cpu::spec_pending_vector;
use crate::cpu::spec_interrupt_phase;
use crate::cpu::spec_clear_interrupt;
use crate::interrupts::spec_interrupt_address;
use crate::memory_bus::spec_bus_step;

verus! {

/// Decoder totality: every byte decodes in the prefixed table, and every
/// byte but the eleven illegal opcodes and the prefix byte itself decodes
/// in the unprefixed table.
pub proof fn lemma_decoder_totality()
    ensures
        forall|byte: u8| #[trigger] spec_decode(byte, true) is Some,
        forall|byte: u8|
            #[trigger] spec_decode(byte, false) is Some <==> !(spec_is_illegal_opcode(byte) || byte
                == 0xCB),
{
}

/// The flag register's low nibble always reads as zero.
pub proof fn lemma_flag_low_nibble_zero(f: FlagsRegister)
    ensures
        spec_flags_to_byte(f) % 16 == 0,
{
}

/// Unpacking a byte into flags and packing it back keeps exactly the high
/// nibble.
pub proof fn lemma_flags_unpack_pack(byte: u8)
    ensures
        spec_flags_to_byte(spec_flags_from_byte(byte)) == byte & 0xF0,
{
    let z: u8 = (byte / 128) % 2;
    let n: u8 = (byte / 64) % 2;
    let h: u8 = (byte / 32) % 2;
    let c: u8 = (byte / 16) % 2;
    assert(((byte / 128) % 2) * 128 + ((byte / 64) % 2) * 64 + ((byte / 32) % 2) * 32 + ((byte
        / 16) % 2) * 16 == byte & 0xF0) by (bit_vector);
}

/// Packing flags into a byte and unpacking them again restores every flag.
pub proof fn lemma_flags_pack_unpack(f: FlagsRegister)
    ensures
        spec_flags_from_byte(spec_flags_to_byte(f)) == f,
{
}

/// Writing a register pair and reading it back yields the written word.
pub proof fn lemma_pair_round_trip(value: u16)
    ensures
        spec_pair(spec_high_byte(value), spec_low_byte(value)) == value,
{
}

/// Writing AF and reading it back yields the word with its low nibble
/// masked off, because F stores only the four flag bits.
pub proof fn lemma_af_round_trip(value: u16)
    ensures
        spec_pair(
            spec_high_byte(value),
            spec_flags_to_byte(spec_flags_from_byte(spec_low_byte(value))),
        ) == value & 0xFFF0,
{
    lemma_flags_unpack_pack(spec_low_byte(value));
    assert((value / 256) * 256 + ((value % 256) & 0xF0) == value & 0xFFF0) by (bit_vector);
}

/// Echo aliasing: every address in the echo range reads the work RAM byte
/// 0x2000 below it.
pub proof fn lemma_echo_aliases_work_ram(b: BusV, address: u16)
    requires
        0xE000 <= address <= 0xFDFF,
    ensures
        spec_read_byte(b, address) == spec_read_byte(b, (address - 0x2000) as u16),
{
    reveal(spec_read_byte);
}

/// Stack round trip: pushing a word and popping at the moved stack pointer
/// yields the pushed word and restores the pointer, for a stack that sits
/// in work RAM proper.
pub proof fn lemma_push_pop_round_trip(b: BusV, sp: u16, value: u16)
    requires
        b.well_formed(),
        0xC002 <= sp,
        sp <= 0xDFFF,
    ensures
        spec_pop_value(spec_push(b, sp, value), spec_wrap16(sp - 2)) == value,
        spec_wrap16(spec_wrap16(sp - 2) + 2) == sp,
{
    reveal(spec_read_byte);
    reveal(spec_write_byte);
    reveal(spec_write_memory_byte);
    let high_addr = spec_wrap16(sp - 1);
    let low_addr = spec_wrap16(sp - 2);
    let pushed = spec_push(b, sp, value);
    assert(pushed.working_ram[low_addr - 0xC000] == spec_low_byte(value));
    assert(pushed.working_ram[high_addr - 0xC000] == spec_high_byte(value));
    assert(spec_read_byte(pushed, low_addr) == spec_low_byte(value));
    assert(spec_read_byte(pushed, high_addr) == spec_high_byte(value));
    lemma_pair_round_trip(value);
}

/// Interrupt single-dispatch: the vector a dispatch enters is unique and
/// is the lowest-numbered bit set in both registers; with nothing pending
/// and enabled, no vector is entered.
pub proof fn lemma_interrupt_single_dispatch(enabled: Interrupts, pending: Interrupts)
    ensures
        spec_pending_vector(enabled, pending) == Some(InterruptLocation::VBlank) <==> (
        enabled.vertical_blank && pending.vertical_blank),
        spec_pending_vector(enabled, pending) == Some(InterruptLocation::LCD) <==> (!(
        enabled.vertical_blank && pending.vertical_blank) && enabled.lcd_c && pending.lcd_c),
        spec_pending_vector(enabled, pending) == Some(InterruptLocation::Timer) <==> (!(
        enabled.vertical_blank && pending.vertical_blank) && !(enabled.lcd_c && pending.lcd_c)
            && enabled.timer && pending.timer),
        spec_pending_vector(enabled, pending) is None <==> !((enabled.vertical_blank
            && pending.vertical_blank) || (enabled.lcd_c && pending.lcd_c) || (enabled.timer
            && pending.timer) || (enabled.serial_transfer && pending.serial_transfer) || (
        enabled.joypad && pending.joypad)),
{
}

/// LY tracks the frame clock: with the display on, a step advances the
/// position inside the 70224-cycle frame by exactly the elapsed cycles,
/// wrapping once per frame; LY itself only ever advances by one or wraps
/// to zero with the frame.
pub proof fn lemma_frame_position_advances(g: GpuV, cycles: u16)
    requires
        g.well_formed(),
        g.lcd_display_enabled,
        cycles <= 80,
    ensures
        spec_frame_position(spec_gpu_step(g, cycles).0) == (spec_frame_position(g) + cycles)
            % 70224,
{
    reveal(spec_gpu_step);
    let stepped = spec_gpu_step(g, cycles).0;
    assert(0 <= spec_frame_position(g) < 70224);
    if spec_frame_position(g) + cycles < 70224 {
        assert(spec_frame_position(stepped) == spec_frame_position(g) + cycles);
    } else {
        assert(spec_frame_position(stepped) == spec_frame_position(g) + cycles - 70224);
    }
}


/// A step's dispatch phase enters at most one vector: none while an EI is
/// still taking effect or the master enable is off or nothing is pending
/// and enabled; otherwise exactly the lowest-numbered pending, enabled one,
/// whose bit clears, whose address PC takes, and whose entry pushes the old
/// PC and drops the master enable.
pub proof fn lemma_dispatch_enters_lowest_vector(s: CpuV)
    ensures
        ({
            let phase = spec_interrupt_phase(s);
            &&& phase.1 <==> (!s.interrupt_enable_pending && s.interrupt_enabled
                && spec_pending_vector(s.bus.interrupts_enabled, s.bus.interrupt_flags) is Some)
            &&& phase.1 ==> {
                let location = spec_pending_vector(
                    s.bus.interrupts_enabled,
                    s.bus.interrupt_flags,
                )->0;
                &&& phase.0.pc == spec_interrupt_address(location)
                &&& !phase.0.interrupt_enabled
                &&& phase.0.sp == spec_wrap16(s.sp - 2)
                &&& phase.0.bus == spec_bus_step(
                    spec_push(
                        BusV {
                            interrupt_flags: spec_clear_interrupt(
                                s.bus.interrupt_flags,
                                location,
                            ),
                            ..s.bus
                        },
                        s.sp,
                        s.pc,
                    ),
                    12,
                )
            }
            &&& !phase.1 ==> phase.0 == (CpuV {
                interrupt_enable_pending: false,
                ..s
            }) || phase.0 == s
        }),
{
    reveal(spec_interrupt_phase);
}

} // verus!
