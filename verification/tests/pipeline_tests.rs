use erki_boy::cpu::CPU;
use erki_boy::gpu::Mode;
use erki_boy::gpu::TilePixelValue;
use erki_boy::instruction::Instruction;
use erki_boy::joypad::Joypad;
use erki_boy::memory_bus::MemoryBus;

#[test]
fn frame_completes_in_70224_cycles() {
    let mut mem = MemoryBus::new_empty_memory();
    mem.write_byte(0xFF40, 0b1000_0001);
    mem.gpu.lcd_mode = Mode::OAMAccess;
    mem.gpu.lcd_y_coordinate = 0;
    mem.gpu.cycles = 0;

    let mut saw_153 = false;
    let mut resets = 0;
    let mut last_ly = 0u8;
    for _ in 0..(70224 / 16) {
        mem.step(16);
        let ly = mem.gpu.lcd_y_coordinate;
        if ly == 153 {
            saw_153 = true;
        }
        if ly == 0 && last_ly == 153 {
            resets += 1;
        }
        assert!(ly == last_ly || ly == last_ly + 1 || (ly == 0 && last_ly == 153));
        last_ly = ly;
    }
    assert_eq!(mem.gpu.lcd_y_coordinate, 0);
    assert!(matches!(mem.gpu.lcd_mode, Mode::OAMAccess));
    assert_eq!(mem.gpu.cycles, 0);
    assert!(saw_153);
    assert_eq!(resets, 1);
    assert_eq!(mem.gpu.screen_buffer[3], 255);
}

#[test]
fn vblank_interrupt_latches_once_per_frame() {
    let mut mem = MemoryBus::new_empty_memory();
    mem.write_byte(0xFF40, 0b1000_0000);
    mem.gpu.lcd_mode = Mode::OAMAccess;
    mem.gpu.lcd_y_coordinate = 0;
    mem.gpu.cycles = 0;
    for _ in 0..(70224 / 16) {
        mem.step(16);
    }
    assert_eq!(mem.read_byte(0xFF0F) & 0b1, 0b1);
    assert_eq!(mem.read_byte(0xFF44), 0);
}

#[test]
fn display_off_freezes_the_pipeline() {
    let mut mem = MemoryBus::new_empty_memory();
    mem.step(80);
    mem.step(80);
    assert_eq!(mem.gpu.lcd_y_coordinate, 0);
    assert_eq!(mem.gpu.cycles, 0);
}

#[test]
fn tile_cache_follows_vram_writes() {
    let mut mem = MemoryBus::new_empty_memory();
    mem.write_byte(0x8000, 0b1000_0001);
    mem.write_byte(0x8001, 0b0000_0001);
    assert_eq!(mem.gpu.tile_set[0], TilePixelValue::One);
    assert_eq!(mem.gpu.tile_set[7], TilePixelValue::Three);
    assert_eq!(mem.gpu.tile_set[1], TilePixelValue::Zero);
}

#[test]
fn object_table_follows_oam_writes() {
    let mut mem = MemoryBus::new_empty_memory();
    mem.write_byte(0xFE00, 40);
    mem.write_byte(0xFE01, 20);
    mem.write_byte(0xFE02, 7);
    mem.write_byte(0xFE03, 0b1011_0000);
    let entry = mem.gpu.obj_data[0];
    assert_eq!(entry.y, 40 - 16);
    assert_eq!(entry.x, 20 - 8);
    assert_eq!(entry.tile, 7);
    assert!(entry.priority);
    assert!(!entry.flip_y);
    assert!(entry.flip_x);
}

#[test]
fn lcd_control_round_trips() {
    let mut mem = MemoryBus::new_empty_memory();
    mem.write_byte(0xFF40, 0b1010_0101);
    assert_eq!(mem.read_byte(0xFF40), 0b1010_0101);
    mem.write_byte(0xFF42, 33);
    mem.write_byte(0xFF43, 44);
    assert_eq!(mem.read_byte(0xFF42), 33);
    assert_eq!(mem.read_byte(0xFF43), 44);
}

#[test]
fn joypad_poll_reads_selected_column_active_low() {
    let mut joypad = Joypad::new();
    joypad.column = true;
    joypad.start = true;
    joypad.a = true;
    assert_eq!(joypad.poll(), 0b0010_0110);
    joypad.column = false;
    joypad.up = true;
    assert_eq!(joypad.poll(), 0b0001_1011);
    joypad.reset();
    assert_eq!(joypad.poll(), 0b0001_1111);
}

#[test]
fn cpu_wakes_from_halt_on_pending_interrupt() {
    let mut cpu = CPU::new(None, vec![0; 0x10000]);
    cpu.interrupt_enabled = false;
    cpu.execute(Instruction::HALT);
    cpu.step();
    assert_eq!(cpu.pc, 0);
    cpu.bus.interrupts_enabled.timer = true;
    cpu.bus.interrupt_flags.timer = true;
    cpu.step();
    assert_eq!(cpu.pc, 1);
}

#[test]
fn interrupt_dispatch_enters_lowest_vector() {
    let mut cpu = CPU::new(None, vec![0; 0x10000]);
    cpu.sp = 0xD000;
    cpu.pc = 0x0200;
    cpu.bus.write_byte(0x0200, 0x00);
    cpu.bus.interrupts_enabled.vertical_blank = true;
    cpu.bus.interrupts_enabled.timer = true;
    cpu.bus.interrupt_flags.vertical_blank = true;
    cpu.bus.interrupt_flags.timer = true;
    cpu.step();
    assert_eq!(cpu.pc, 0x40);
    assert!(!cpu.interrupt_enabled);
    assert!(!cpu.bus.interrupt_flags.vertical_blank);
    assert!(cpu.bus.interrupt_flags.timer);
}
