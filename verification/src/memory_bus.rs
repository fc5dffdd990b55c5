//! The memory bus: a 16-bit address space decoded onto the boot overlay, the
//! two fixed cartridge banks, VRAM, external and work RAM with its echo, OAM,
//! the memory-mapped I/O registers, high RAM and the interrupt-enable
//! register. The bus also owns the clocked peripherals: stepping it advances
//! the divider, the timer and the pixel pipeline, and latches their
//! interrupts into the pending register.
//!
//! Accesses to memory-mapped registers outside the modeled set are total
//! rather than fatal: such a read yields 0xFF and such a write changes
//! nothing. A verified function may not panic, and these addresses are
//! reachable from ordinary instructions.

use vstd::prelude::*;
use crate::gpu::GPU;
use crate::gpu::GpuV;
use crate::gpu::Mode;
use crate::gpu::ObjSize;
use crate::gpu::Palette;
use crate::gpu::TileData;
use crate::gpu::TileMap;
use crate::gpu::TilePixelValue;
use crate::gpu::ObjectData;
use crate::gpu::ObjectPalette;
use crate::gpu::Color;
use crate::gpu::spec_mode_code;
use crate::gpu::spec_palette_to_byte;
use crate::gpu::spec_palette_from_byte;
use crate::gpu::spec_vram_retile;
use crate::gpu::spec_apply_oam_byte;
use crate::gpu::spec_gpu_step;
use crate::gpu::spec_gpu_write_register;
use crate::gpu::spec_gpu_after_vram_write;
use crate::gpu::spec_gpu_after_oam_write;
use crate::gpu::lemma_vram_write_well_formed;
use crate::gpu::lemma_oam_write_well_formed;
use crate::gpu::lemma_register_write_well_formed;
use crate::gpu::VIDEO_RAM_SIZE;
use crate::gpu::OAM_SIZE;
use crate::interrupts::Interrupts;
use crate::interrupts::spec_interrupts_from_byte;
use crate::interrupts::spec_interrupts_to_byte;
use crate::joypad::Joypad;
use crate::joypad::spec_joypad_poll;
use crate::timer::Timer;
use crate::timer::TimerFrequency;
use crate::timer::Divider;
use crate::timer::spec_frequency_ticks;
use crate::timer::spec_timer_drain;

verus! {

pub const BOOT_ROM_SIZE: usize = 256;

pub const ROM_BANK_SIZE: usize = 16384;

pub const EXTERNAL_RAM_SIZE: usize = 8192;

pub const WORKING_RAM_SIZE: usize = 8192;

pub const HRAM_SIZE: usize = 127;

pub struct MemoryBus {
    /// The 256-byte boot image, mapped over the start of the fixed bank
    /// until a write to 0xFF50 unloads it for good.
    pub boot_rom: Option<Vec<u8>>,
    pub rom_bank: Vec<u8>,
    pub switchable_rom_bank: Vec<u8>,
    pub external_ram: Vec<u8>,
    pub working_ram: Vec<u8>,
    pub high_ram: Vec<u8>,
    pub timer: Timer,
    pub divider: Divider,
    pub interrupts_enabled: Interrupts,
    pub interrupt_flags: Interrupts,
    pub joypad: Joypad,
    pub gpu: GPU,
}

/// The mathematical view of the bus: each memory a sequence, the peripherals
/// by value.
pub ghost struct BusV {
    pub boot_rom: Option<Seq<u8>>,
    pub rom_bank: Seq<u8>,
    pub switchable_rom_bank: Seq<u8>,
    pub external_ram: Seq<u8>,
    pub working_ram: Seq<u8>,
    pub high_ram: Seq<u8>,
    pub timer: Timer,
    pub divider: Divider,
    pub interrupts_enabled: Interrupts,
    pub interrupt_flags: Interrupts,
    pub joypad: Joypad,
    pub gpu: GpuV,
}

impl View for MemoryBus {
    type V = BusV;

    open spec fn view(&self) -> BusV {
        BusV {
            boot_rom: match self.boot_rom {
                Some(rom) => Some(rom@),
                None => None,
            },
            rom_bank: self.rom_bank@,
            switchable_rom_bank: self.switchable_rom_bank@,
            external_ram: self.external_ram@,
            working_ram: self.working_ram@,
            high_ram: self.high_ram@,
            timer: self.timer,
            divider: self.divider,
            interrupts_enabled: self.interrupts_enabled,
            interrupt_flags: self.interrupt_flags,
            joypad: self.joypad,
            gpu: self.gpu@,
        }
    }
}

impl BusV {
    /// The structural invariant: every memory has its fixed size, the
    /// pipeline is well formed, and the timer accumulator stays below one
    /// period.
    pub open spec fn well_formed(self) -> bool {
        &&& match self.boot_rom {
            Some(rom) => rom.len() == BOOT_ROM_SIZE,
            None => true,
        }
        &&& self.rom_bank.len() == ROM_BANK_SIZE
        &&& self.switchable_rom_bank.len() == ROM_BANK_SIZE
        &&& self.external_ram.len() == EXTERNAL_RAM_SIZE
        &&& self.working_ram.len() == WORKING_RAM_SIZE
        &&& self.high_ram.len() == HRAM_SIZE
        &&& self.timer.cycles < 1024
        &&& self.gpu.well_formed()
    }
}

impl MemoryBus {
    pub open spec fn well_formed(self) -> bool {
        self@.well_formed()
    }
}

/// The timer-control byte at 0xFF07: the active bit at position 2 over the
/// two-bit clock-select code, which maps 0 to F4096, 1 to F262144, 2 to
/// F65536 and 3 to F16384.
pub open spec fn spec_timer_control_byte(t: Timer) -> u8 {
    ((if t.active {
        4int
    } else {
        0int
    }) + match t.frequency {
        TimerFrequency::F4096 => 0int,
        TimerFrequency::F262144 => 1int,
        TimerFrequency::F65536 => 2int,
        TimerFrequency::F16384 => 3int,
    }) as u8
}

/// The clock rate a two-bit clock-select code names.
pub open spec fn spec_frequency_of_code(code: u8) -> TimerFrequency {
    if code == 0 {
        TimerFrequency::F4096
    } else if code == 1 {
        TimerFrequency::F262144
    } else if code == 2 {
        TimerFrequency::F65536
    } else {
        TimerFrequency::F16384
    }
}

/// The LCD-control byte at 0xFF40, rebuilt from the pipeline's switches:
/// display enable at bit 7 down to background enable at bit 0.
pub open spec fn spec_lcdc_byte(g: GpuV) -> u8 {
    ((if g.lcd_display_enabled {
        128int
    } else {
        0int
    }) + (if g.window_tile_map == TileMap::Ox9C00 {
        64int
    } else {
        0int
    }) + (if g.window_display_enabled {
        32int
    } else {
        0int
    }) + (if g.background_window_tile_data == TileData::Ox8000 {
        16int
    } else {
        0int
    }) + (if g.background_tile_map == TileMap::Ox9C00 {
        8int
    } else {
        0int
    }) + (if g.obj_size == ObjSize::Size8x16 {
        4int
    } else {
        0int
    }) + (if g.obj_display_enable {
        2int
    } else {
        0int
    }) + (if g.background_display_enabled {
        1int
    } else {
        0int
    })) as u8
}

/// The LCD-status byte at 0xFF41: the four interrupt enables in bits 6..3
/// over the two-bit mode code.
pub open spec fn spec_stat_byte(g: GpuV) -> u8 {
    ((if g.lyc_interrupt_enabled {
        64int
    } else {
        0int
    }) + (if g.oam_interrupt_enabled {
        32int
    } else {
        0int
    }) + (if g.vblank_interrupt_enabled {
        16int
    } else {
        0int
    }) + (if g.hblank_interrupt_enabled {
        8int
    } else {
        0int
    }) + spec_mode_code(g.lcd_mode)) as u8
}

/// A memory-mapped I/O read. Registers outside the modeled set read as
/// 0xFF.
#[verifier::opaque]
pub open spec fn spec_read_io(b: BusV, address: u16) -> u8 {
    if address == 0xFF00 {
        spec_joypad_poll(b.joypad)
    } else if address == 0xFF01 || address == 0xFF02 {
        0
    } else if address == 0xFF04 {
        b.divider.value
    } else if address == 0xFF05 {
        b.timer.value
    } else if address == 0xFF06 {
        b.timer.modulo
    } else if address == 0xFF07 {
        spec_timer_control_byte(b.timer)
    } else if address == 0xFF0F {
        spec_interrupts_to_byte(b.interrupt_flags)
    } else if address == 0xFF40 {
        spec_lcdc_byte(b.gpu)
    } else if address == 0xFF41 {
        spec_stat_byte(b.gpu)
    } else if address == 0xFF42 {
        b.gpu.scroll_y
    } else if address == 0xFF43 {
        b.gpu.scroll_x
    } else if address == 0xFF44 {
        b.gpu.lcd_y_coordinate
    } else if address == 0xFF45 {
        b.gpu.lcd_y_compare
    } else if address == 0xFF47 {
        spec_palette_to_byte(b.gpu.background_window_palette)
    } else if address == 0xFF48 {
        spec_palette_to_byte(b.gpu.obj_0_palette)
    } else if address == 0xFF49 {
        spec_palette_to_byte(b.gpu.obj_1_palette)
    } else if address == 0xFF4A {
        b.gpu.window_y
    } else if address == 0xFF4B {
        b.gpu.window_x
    } else if address == 0xFF4D {
        0
    } else {
        0xFF
    }
}

/// A read anywhere in the address space, decoded as the memory map lays it
/// out. The boot overlay shadows the first 256 bytes while loaded, the echo
/// range aliases work RAM 0x2000 below, and the unusable range reads as
/// 0xFF.
#[verifier::opaque]
pub open spec fn spec_read_byte(b: BusV, address: u16) -> u8 {
    if address < 0x100 && b.boot_rom is Some {
        b.boot_rom->0[address as int]
    } else if address < 0x4000 {
        b.rom_bank[address as int]
    } else if address < 0x8000 {
        b.switchable_rom_bank[address - 0x4000]
    } else if address < 0xA000 {
        b.gpu.video_ram[address - 0x8000]
    } else if address < 0xC000 {
        b.external_ram[address - 0xA000]
    } else if address < 0xE000 {
        b.working_ram[address - 0xC000]
    } else if address < 0xFE00 {
        b.working_ram[address - 0xE000]
    } else if address < 0xFEA0 {
        b.gpu.oam[address - 0xFE00]
    } else if address < 0xFF00 {
        0xFF
    } else if address < 0xFF80 {
        spec_read_io(b, address)
    } else if address < 0xFFFF {
        b.high_ram[address - 0xFF80]
    } else {
        spec_interrupts_to_byte(b.interrupts_enabled)
    }
}

/// A memory-mapped I/O write to the system registers below 0xFF10: the
/// joypad column select at bit 5 (the device's select lines are active low;
/// here a set bit picks the button column), the divider, which any write
/// zeroes, the timer registers and the pending-interrupt register. The
/// serial registers and other unmodeled registers change nothing.
#[verifier::opaque]
pub open spec fn spec_write_system_io(b: BusV, address: u16, value: u8) -> BusV {
    if address == 0xFF00 {
        BusV { joypad: Joypad { column: (value / 32) % 2 == 1, ..b.joypad }, ..b }
    } else if address == 0xFF04 {
        BusV { divider: Divider { value: 0 }, ..b }
    } else if address == 0xFF05 {
        BusV { timer: Timer { value, ..b.timer }, ..b }
    } else if address == 0xFF06 {
        BusV { timer: Timer { modulo: value, ..b.timer }, ..b }
    } else if address == 0xFF07 {
        BusV {
            timer: Timer {
                active: (value / 4) % 2 == 1,
                frequency: spec_frequency_of_code(value % 4),
                ..b.timer
            },
            ..b
        }
    } else if address == 0xFF0F {
        BusV { interrupt_flags: spec_interrupts_from_byte(value), ..b }
    } else {
        b
    }
}

/// A memory-mapped I/O write to the display registers from 0xFF10 up: a
/// write to 0xFF50 unloads the boot overlay for good; every other register
/// in the range belongs to the pipeline.
pub open spec fn spec_write_display_io(b: BusV, address: u16, value: u8) -> BusV {
    if address == 0xFF50 {
        BusV { boot_rom: None, ..b }
    } else {
        BusV { gpu: spec_gpu_write_register(b.gpu, address, value), ..b }
    }
}

/// A memory-mapped I/O write: the system registers below 0xFF10, the
/// display registers above.
pub open spec fn spec_write_io(b: BusV, address: u16, value: u8) -> BusV {
    if address < 0xFF10 {
        spec_write_system_io(b, address, value)
    } else {
        spec_write_display_io(b, address, value)
    }
}

/// A write into the memories below OAM: cartridge-bank writes land in the
/// stored bytes, a real cartridge's bank switching being out of scope; VRAM
/// writes keep the tile cache in step; echo writes land in work RAM.
#[verifier::opaque]
pub open spec fn spec_write_memory_byte(b: BusV, address: u16, value: u8) -> BusV {
    if address < 0x4000 {
        BusV { rom_bank: b.rom_bank.update(address as int, value), ..b }
    } else if address < 0x8000 {
        BusV { switchable_rom_bank: b.switchable_rom_bank.update(address - 0x4000, value), ..b }
    } else if address < 0xA000 {
        BusV { gpu: spec_gpu_after_vram_write(b.gpu, address - 0x8000, value), ..b }
    } else if address < 0xC000 {
        BusV { external_ram: b.external_ram.update(address - 0xA000, value), ..b }
    } else if address < 0xE000 {
        BusV { working_ram: b.working_ram.update(address - 0xC000, value), ..b }
    } else {
        BusV { working_ram: b.working_ram.update(address - 0xE000, value), ..b }
    }
}

/// A write from OAM up: OAM writes keep the object table in step, writes
/// into the unusable range are dropped, the I/O registers decode as their
/// own map says, and 0xFFFF is the interrupt-enable register.
#[verifier::opaque]
pub open spec fn spec_write_high_byte(b: BusV, address: u16, value: u8) -> BusV {
    if address < 0xFEA0 {
        BusV { gpu: spec_gpu_after_oam_write(b.gpu, address - 0xFE00, value), ..b }
    } else if address < 0xFF00 {
        b
    } else if address < 0xFF80 {
        spec_write_io(b, address, value)
    } else if address < 0xFFFF {
        BusV { high_ram: b.high_ram.update(address - 0xFF80, value), ..b }
    } else {
        BusV { interrupts_enabled: spec_interrupts_from_byte(value), ..b }
    }
}

/// A write anywhere in the address space, decoded as the memory map lays
/// it out.
pub open spec fn spec_write_byte(b: BusV, address: u16, value: u8) -> BusV {
    if address < 0xFE00 {
        spec_write_memory_byte(b, address, value)
    } else {
        spec_write_high_byte(b, address, value)
    }
}

/// The timer after a bus step, with its overflow signal.
pub open spec fn spec_timer_step(t: Timer, cycles: u16) -> (Timer, bool) {
    if !t.active {
        (t, false)
    } else {
        let drained = spec_timer_drain(
            t.value,
            t.modulo,
            t.cycles + cycles,
            spec_frequency_ticks(t.frequency) as int,
        );
        (Timer { value: drained.0, cycles: drained.1 as usize, ..t }, drained.2)
    }
}

/// The bus after a step: the timer and divider advance, the pipeline
/// advances, and each raised condition sets its pending-interrupt bit; bits
/// already pending stay set until dispatched.
#[verifier::opaque]
pub open spec fn spec_bus_step(b: BusV, cycles: u16) -> BusV {
    let timer_stepped = spec_timer_step(b.timer, cycles);
    let divider = Divider { value: ((b.divider.value + cycles) % 256) as u8 };
    let gpu_stepped = spec_gpu_step(b.gpu, cycles);
    BusV {
        timer: timer_stepped.0,
        divider,
        gpu: gpu_stepped.0,
        interrupt_flags: Interrupts {
            timer: b.interrupt_flags.timer || timer_stepped.1,
            vertical_blank: b.interrupt_flags.vertical_blank || gpu_stepped.1,
            lcd_c: b.interrupt_flags.lcd_c || gpu_stepped.2,
            ..b.interrupt_flags
        },
        ..b
    }
}

/// Whether an enabled interrupt is pending: some bit is set in both the
/// enable and the pending register.
pub open spec fn spec_interrupted(b: BusV) -> bool {
    (b.interrupts_enabled.vertical_blank && b.interrupt_flags.vertical_blank)
        || (b.interrupts_enabled.lcd_c && b.interrupt_flags.lcd_c) || (b.interrupts_enabled.timer
        && b.interrupt_flags.timer) || (b.interrupts_enabled.serial_transfer
        && b.interrupt_flags.serial_transfer) || (b.interrupts_enabled.joypad
        && b.interrupt_flags.joypad)
}


/// A memory-mapped I/O write keeps the bus well formed.
pub proof fn lemma_write_io_well_formed(b: BusV, address: u16, value: u8)
    requires
        b.well_formed(),
        0xFF00 <= address < 0xFF80,
    ensures
        spec_write_io(b, address, value).well_formed(),
{
    reveal(spec_write_system_io);
    if address >= 0xFF10 && address != 0xFF50 {
        lemma_register_write_well_formed(b.gpu, address, value);
    }
}

/// Any write keeps the bus well formed.
pub proof fn lemma_write_byte_well_formed(b: BusV, address: u16, value: u8)
    requires
        b.well_formed(),
    ensures
        spec_write_byte(b, address, value).well_formed(),
{
    reveal(spec_write_memory_byte);
    reveal(spec_write_high_byte);
    if 0x8000 <= address < 0xA000 {
        lemma_vram_write_well_formed(b.gpu, address - 0x8000, value);
    }
    if 0xFE00 <= address < 0xFEA0 {
        lemma_oam_write_well_formed(b.gpu, address - 0xFE00, value);
    }
    if 0xFF00 <= address < 0xFF80 {
        lemma_write_io_well_formed(b, address, value);
    }
}

impl MemoryBus {
    /// A bus over an all-zero cartridge, with no boot overlay.
    pub fn new_empty_memory() -> (r: MemoryBus)
        ensures
            r.well_formed(),
            r@.boot_rom is None,
            forall|i: int| 0 <= i < ROM_BANK_SIZE ==> r@.rom_bank[i] == 0,
            forall|i: int| 0 <= i < ROM_BANK_SIZE ==> r@.switchable_rom_bank[i] == 0,
            forall|i: int| 0 <= i < EXTERNAL_RAM_SIZE ==> r@.external_ram[i] == 0xFF,
            forall|i: int| 0 <= i < WORKING_RAM_SIZE ==> r@.working_ram[i] == 0xFF,
            forall|i: int| 0 <= i < HRAM_SIZE ==> r@.high_ram[i] == 0xFF,
            r@.timer == (Timer {
                frequency: TimerFrequency::F4096,
                cycles: 0usize,
                value: 0u8,
                modulo: 0u8,
                active: false,
            }),
            r@.divider == (Divider { value: 0u8 }),
            r@.interrupts_enabled == spec_interrupts_from_byte(0),
            r@.interrupt_flags == spec_interrupts_from_byte(0),
            !r@.joypad.column,
            r@.gpu.lcd_mode == Mode::HBlank,
            r@.gpu.lcd_y_coordinate == 0,
            r@.gpu.cycles == 0,
            !r@.gpu.lcd_display_enabled,
    {
        let game_rom = vec![0u8; 0x10000];
        MemoryBus::new(None, game_rom)
    }

    /// A bus over a cartridge image: its first 0x4000 bytes become the fixed
    /// bank and the next 0x4000 the switchable bank; the rest is ignored. A
    /// shorter image cannot back the two banks, so the caller must hand in
    /// at least 0x8000 bytes, and a boot image must be exactly 256 bytes.
    pub fn new(boot_rom_buffer: Option<Vec<u8>>, game_rom_buffer: Vec<u8>) -> (r: MemoryBus)
        requires
            game_rom_buffer@.len() >= 0x8000,
            boot_rom_buffer is Some ==> boot_rom_buffer->0@.len() == BOOT_ROM_SIZE,
        ensures
            r.well_formed(),
            r@.boot_rom == match boot_rom_buffer {
                Some(rom) => Some(rom@),
                None => None::<Seq<u8>>,
            },
            r@.rom_bank == game_rom_buffer@.subrange(0, ROM_BANK_SIZE as int),
            r@.switchable_rom_bank == game_rom_buffer@.subrange(
                ROM_BANK_SIZE as int,
                2 * ROM_BANK_SIZE,
            ),
            forall|i: int| 0 <= i < EXTERNAL_RAM_SIZE ==> r@.external_ram[i] == 0xFF,
            forall|i: int| 0 <= i < WORKING_RAM_SIZE ==> r@.working_ram[i] == 0xFF,
            forall|i: int| 0 <= i < HRAM_SIZE ==> r@.high_ram[i] == 0xFF,
            r@.timer == (Timer {
                frequency: TimerFrequency::F4096,
                cycles: 0usize,
                value: 0u8,
                modulo: 0u8,
                active: false,
            }),
            r@.divider == (Divider { value: 0u8 }),
            r@.interrupts_enabled == spec_interrupts_from_byte(0),
            r@.interrupt_flags == spec_interrupts_from_byte(0),
            !r@.joypad.column,
            r@.gpu.lcd_mode == Mode::HBlank,
            r@.gpu.lcd_y_coordinate == 0,
            r@.gpu.cycles == 0,
            !r@.gpu.lcd_display_enabled,
            !r@.gpu.background_display_enabled,
            !r@.gpu.obj_display_enable,
    {
        let mut rom_bank: Vec<u8> = Vec::new();
        let mut i: usize = 0;
        while i < ROM_BANK_SIZE
            invariant
                i <= ROM_BANK_SIZE,
                game_rom_buffer@.len() >= 0x8000,
                rom_bank@ == game_rom_buffer@.subrange(0, i as int),
            decreases ROM_BANK_SIZE - i,
        {
            rom_bank.push(game_rom_buffer[i]);
            proof {
                assert(rom_bank@ =~= game_rom_buffer@.subrange(0, i + 1));
            }
            i = i + 1;
        }
        let mut switchable_rom_bank: Vec<u8> = Vec::new();
        let mut j: usize = 0;
        while j < ROM_BANK_SIZE
            invariant
                j <= ROM_BANK_SIZE,
                game_rom_buffer@.len() >= 0x8000,
                switchable_rom_bank@ == game_rom_buffer@.subrange(
                    ROM_BANK_SIZE as int,
                    ROM_BANK_SIZE + j,
                ),
            decreases ROM_BANK_SIZE - j,
        {
            switchable_rom_bank.push(game_rom_buffer[ROM_BANK_SIZE + j]);
            proof {
                assert(switchable_rom_bank@ =~= game_rom_buffer@.subrange(
                    ROM_BANK_SIZE as int,
                    ROM_BANK_SIZE + j + 1,
                ));
            }
            j = j + 1;
        }
        let bus = MemoryBus {
            boot_rom: boot_rom_buffer,
            rom_bank,
            switchable_rom_bank,
            external_ram: vec![0xFFu8; EXTERNAL_RAM_SIZE],
            working_ram: vec![0xFFu8; WORKING_RAM_SIZE],
            high_ram: vec![0xFFu8; HRAM_SIZE],
            timer: Timer::new(),
            divider: Divider { value: 0 },
            interrupts_enabled: Interrupts::new(),
            interrupt_flags: Interrupts::new(),
            joypad: Joypad::new(),
            gpu: GPU::new(),
        };
        proof {
            assert(bus@.rom_bank =~= game_rom_buffer@.subrange(0, ROM_BANK_SIZE as int));
            assert(bus@.switchable_rom_bank =~= game_rom_buffer@.subrange(
                ROM_BANK_SIZE as int,
                2 * ROM_BANK_SIZE,
            ));
        }
        bus
    }

    #[verifier::rlimit(100)]
    #[verifier::spinoff_prover]
    fn step_timer_and_divider(&mut self, cycles: u16)
        requires
            old(self)@.timer.cycles <= 0xFFFF,
        ensures
            final(self)@ == (BusV {
                timer: spec_timer_step(old(self)@.timer, cycles).0,
                divider: Divider { value: ((old(self)@.divider.value + cycles) % 256) as u8 },
                interrupt_flags: Interrupts {
                    timer: old(self)@.interrupt_flags.timer || spec_timer_step(
                        old(self)@.timer,
                        cycles,
                    ).1,
                    ..old(self)@.interrupt_flags
                },
                ..old(self)@
            }),
            old(self)@.timer.cycles < 1024 ==> final(self)@.timer.cycles < 1024,
    {
        if self.timer.step(cycles) {
            self.interrupt_flags.timer = true;
        }
        self.divider.step(cycles);
    }

    /// Advance the clocked peripherals by the given cycles and latch their
    /// interrupts into the pending register.
    #[verifier::rlimit(100)]
    #[verifier::spinoff_prover]
    pub fn step(&mut self, cycles: u16)
        requires
            old(self).well_formed(),
            cycles <= 80,
        ensures
            final(self).well_formed(),
            final(self)@ == spec_bus_step(old(self)@, cycles),
    {
        let ghost b0 = self@;
        self.step_timer_and_divider(cycles);
        let (vblank, lcd) = self.gpu.step(cycles);
        if vblank {
            self.interrupt_flags.vertical_blank = true;
        }
        if lcd {
            self.interrupt_flags.lcd_c = true;
        }
        proof {
            reveal(spec_bus_step);
            assert(self@ == spec_bus_step(b0, cycles));
        }
    }

    /// Whether an enabled interrupt is pending.
    pub fn interrupted(&self) -> (r: bool)
        ensures
            r == spec_interrupted(self@),
    {
        (self.interrupts_enabled.vertical_blank && self.interrupt_flags.vertical_blank)
            || (self.interrupts_enabled.lcd_c && self.interrupt_flags.lcd_c)
            || (self.interrupts_enabled.timer && self.interrupt_flags.timer)
            || (self.interrupts_enabled.serial_transfer && self.interrupt_flags.serial_transfer)
            || (self.interrupts_enabled.joypad && self.interrupt_flags.joypad)
    }

    #[verifier::rlimit(100)]
    #[verifier::spinoff_prover]

    fn lcdc_byte(&self) -> (r: u8)
        ensures
            r == spec_lcdc_byte(self.gpu@),
    {
        (if self.gpu.lcd_display_enabled {
            128u8
        } else {
            0u8
        }) + (if matches!(self.gpu.window_tile_map, TileMap::Ox9C00) {
            64u8
        } else {
            0u8
        }) + (if self.gpu.window_display_enabled {
            32u8
        } else {
            0u8
        }) + (if matches!(self.gpu.background_window_tile_data, TileData::Ox8000) {
            16u8
        } else {
            0u8
        }) + (if matches!(self.gpu.background_tile_map, TileMap::Ox9C00) {
            8u8
        } else {
            0u8
        }) + (if matches!(self.gpu.obj_size, ObjSize::Size8x16) {
            4u8
        } else {
            0u8
        }) + (if self.gpu.obj_display_enable {
            2u8
        } else {
            0u8
        }) + (if self.gpu.background_display_enabled {
            1u8
        } else {
            0u8
        })
    }

    fn stat_byte(&self) -> (r: u8)
        ensures
            r == spec_stat_byte(self.gpu@),
    {
        let mode: u8 = match self.gpu.lcd_mode {
            Mode::HBlank => 0,
            Mode::VBlank => 1,
            Mode::OAMAccess => 2,
            Mode::VRAMAccess => 3,
        };
        (if self.gpu.lyc_interrupt_enabled {
            64u8
        } else {
            0u8
        }) + (if self.gpu.oam_interrupt_enabled {
            32u8
        } else {
            0u8
        }) + (if self.gpu.vblank_interrupt_enabled {
            16u8
        } else {
            0u8
        }) + (if self.gpu.hblank_interrupt_enabled {
            8u8
        } else {
            0u8
        }) + mode
    }

    fn timer_control_byte(&self) -> (r: u8)
        ensures
            r == spec_timer_control_byte(self.timer),
    {
        let code: u8 = match self.timer.frequency {
            TimerFrequency::F4096 => 0,
            TimerFrequency::F262144 => 1,
            TimerFrequency::F65536 => 2,
            TimerFrequency::F16384 => 3,
        };
        (if self.timer.active {
            4u8
        } else {
            0u8
        }) + code
    }


    fn read_from_io(&self, address: u16) -> (r: u8)
        requires
            0xFF00 <= address < 0xFF80,
        ensures
            r == spec_read_io(self@, address),
    {
        proof {
            reveal(spec_read_io);
        }
        if address == 0xFF00 {
            self.joypad.poll()
        } else if address == 0xFF01 || address == 0xFF02 {
            0
        } else if address == 0xFF04 {
            self.divider.value
        } else if address == 0xFF05 {
            self.timer.value
        } else if address == 0xFF06 {
            self.timer.modulo
        } else if address == 0xFF07 {
            self.timer_control_byte()
        } else if address == 0xFF0F {
            self.interrupt_flags.to_byte()
        } else if address < 0xFF10 {
            0xFF
        } else {
            self.read_display_io(address)
        }
    }

    #[verifier::rlimit(100)]
    #[verifier::spinoff_prover]
    fn read_display_io(&self, address: u16) -> (r: u8)
        requires
            0xFF10 <= address < 0xFF80,
        ensures
            r == spec_read_io(self@, address),
    {
        proof {
            reveal(spec_read_io);
        }
        if address == 0xFF40 {
            self.lcdc_byte()
        } else if address == 0xFF41 {
            self.stat_byte()
        } else if address == 0xFF42 {
            self.gpu.scroll_y
        } else if address == 0xFF43 {
            self.gpu.scroll_x
        } else if address == 0xFF44 {
            self.gpu.lcd_y_coordinate
        } else if address == 0xFF45 {
            self.gpu.lcd_y_compare
        } else if address == 0xFF47 {
            self.gpu.background_window_palette.to_byte()
        } else if address == 0xFF48 {
            self.gpu.obj_0_palette.to_byte()
        } else if address == 0xFF49 {
            self.gpu.obj_1_palette.to_byte()
        } else if address == 0xFF4A {
            self.gpu.window_y
        } else if address == 0xFF4B {
            self.gpu.window_x
        } else if address == 0xFF4D {
            0
        } else {
            0xFF
        }
    }

    /// Read one byte at an address, decoded as the memory map lays the
    /// space out.
    pub fn read_byte(&self, address: u16) -> (r: u8)
        requires
            self.well_formed(),
        ensures
            r == spec_read_byte(self@, address),
    {
        proof {
            reveal(spec_read_byte);
        }
        if address < 0x100 {
            match &self.boot_rom {
                Some(boot_rom) => {
                    return boot_rom[address as usize];
                },
                None => {
                    return self.rom_bank[address as usize];
                },
            }
        }
        if address < 0x4000 {
            self.rom_bank[address as usize]
        } else if address < 0x8000 {
            self.switchable_rom_bank[(address - 0x4000) as usize]
        } else if address < 0xA000 {
            self.gpu.video_ram[(address - 0x8000) as usize]
        } else if address < 0xC000 {
            self.external_ram[(address - 0xA000) as usize]
        } else if address < 0xE000 {
            self.working_ram[(address - 0xC000) as usize]
        } else if address < 0xFE00 {
            self.working_ram[(address - 0xE000) as usize]
        } else if address < 0xFEA0 {
            self.gpu.oam[(address - 0xFE00) as usize]
        } else if address < 0xFF00 {
            0xFF
        } else if address < 0xFF80 {
            self.read_from_io(address)
        } else if address < 0xFFFF {
            self.high_ram[(address - 0xFF80) as usize]
        } else {
            self.interrupts_enabled.to_byte()
        }
    }

    #[verifier::rlimit(100)]
    #[verifier::spinoff_prover]
    fn write_to_io(&mut self, address: u16, value: u8)
        requires
            old(self).well_formed(),
            0xFF00 <= address < 0xFF80,
        ensures
            final(self)@ == spec_write_io(old(self)@, address, value),
    {
        proof {
            reveal(spec_write_system_io);
        }
        if address == 0xFF00 {
            self.joypad.column = (value / 32) % 2 == 1;
        } else if address == 0xFF04 {
            self.divider.value = 0;
        } else if address == 0xFF05 {
            self.timer.value = value;
        } else if address == 0xFF06 {
            self.timer.modulo = value;
        } else if address == 0xFF07 {
            self.timer.active = (value / 4) % 2 == 1;
            let code = value % 4;
            self.timer.frequency = if code == 0 {
                TimerFrequency::F4096
            } else if code == 1 {
                TimerFrequency::F262144
            } else if code == 2 {
                TimerFrequency::F65536
            } else {
                TimerFrequency::F16384
            };
        } else if address == 0xFF0F {
            self.interrupt_flags.from_byte(value);
        } else if address < 0xFF10 {
        } else {
            self.write_display_io(address, value);
        }
    }

fn write_display_io(&mut self, address: u16, value: u8)
        requires
            0xFF10 <= address < 0xFF80,
        ensures
            final(self)@ == spec_write_io(old(self)@, address, value),
    {
        if address == 0xFF50 {
            self.boot_rom = None;
        } else {
            self.gpu.write_register(address, value);
            proof {
                reveal(spec_gpu_write_register);
            }
        }
    }

    #[verifier::rlimit(100)]
    #[verifier::spinoff_prover]
    fn write_rom_byte(&mut self, address: u16, value: u8)
        requires
            old(self).well_formed(),
            address < 0x8000,
        ensures
            final(self)@ == spec_write_byte(old(self)@, address, value),
    {
        let ghost b0 = self@;
        if address < 0x4000 {
            self.rom_bank.set(address as usize, value);
        } else {
            self.switchable_rom_bank.set((address - 0x4000) as usize, value);
        }
        proof {
            assert(self@ == spec_write_byte(b0, address, value)) by {
                reveal(spec_write_memory_byte);
            }
        }
    }

    #[verifier::rlimit(100)]
    #[verifier::spinoff_prover]
    fn write_ram_byte(&mut self, address: u16, value: u8)
        requires
            old(self).well_formed(),
            0xA000 <= address < 0xFE00,
        ensures
            final(self)@ == spec_write_byte(old(self)@, address, value),
    {
        let ghost b0 = self@;
        if address < 0xC000 {
            self.external_ram.set((address - 0xA000) as usize, value);
        } else if address < 0xE000 {
            self.working_ram.set((address - 0xC000) as usize, value);
        } else {
            self.working_ram.set((address - 0xE000) as usize, value);
        }
        proof {
            assert(self@ == spec_write_byte(b0, address, value)) by {
                reveal(spec_write_memory_byte);
            }
        }
    }

    #[verifier::rlimit(100)]
    #[verifier::spinoff_prover]
    fn write_memory_byte(&mut self, address: u16, value: u8)
        requires
            old(self).well_formed(),
            address < 0xFE00,
        ensures
            final(self)@ == spec_write_byte(old(self)@, address, value),
    {
        let ghost b0 = self@;
        if address < 0x8000 {
            self.write_rom_byte(address, value);
        } else if address < 0xA000 {
            self.gpu.write_vram((address - 0x8000) as usize, value);
            proof {
                assert(self@ == spec_write_byte(b0, address, value)) by {
                    reveal(spec_write_memory_byte);
                }
            }
        } else {
            self.write_ram_byte(address, value);
        }
    }

    #[verifier::rlimit(100)]
    #[verifier::spinoff_prover]
    fn write_high_area_byte(&mut self, address: u16, value: u8)
        requires
            old(self).well_formed(),
            address >= 0xFE00,
        ensures
            final(self)@ == spec_write_byte(old(self)@, address, value),
    {
        let ghost b0 = self@;
        if address < 0xFEA0 {
            self.gpu.write_oam((address - 0xFE00) as usize, value);
        } else if address < 0xFF00 {
        } else if address < 0xFF80 {
            self.write_to_io(address, value);
        } else if address < 0xFFFF {
            self.high_ram.set((address - 0xFF80) as usize, value);
        } else {
            self.interrupts_enabled.from_byte(value);
        }
        proof {
            assert(self@ == spec_write_byte(b0, address, value)) by {
                reveal(spec_write_high_byte);
            }
        }
    }

    /// Write one byte at an address, decoded as the memory map lays the
    /// space out: cartridge-bank writes land in the stored bytes, VRAM and
    /// OAM writes keep the pipeline's caches in step, echo writes land in
    /// work RAM, and writes into the unusable range are dropped.
    pub fn write_byte(&mut self, address: u16, value: u8)
        requires
            old(self).well_formed(),
        ensures
            final(self)@ == spec_write_byte(old(self)@, address, value),
    {
        if address < 0xFE00 {
            self.write_memory_byte(address, value);
        } else {
            self.write_high_area_byte(address, value);
        }
    }
}

} // verus!
