use erki_boy::gpu::Color;
use erki_boy::memory_bus::MemoryBus;
use erki_boy::timer::Timer;

#[test]
fn timer_overflows() {
    let mut timer = Timer::new();
    timer.active = true;
    timer.modulo = 128;
    let overflow = timer.step(1024);
    assert_eq!(timer.value, 1);
    assert_eq!(overflow, false);
    let overflow = timer.step(1);
    assert_eq!(timer.value, 1);
    assert_eq!(timer.cycles, 1);
    assert_eq!(overflow, false);
    timer.value = 255;
    let overflow = timer.step(1024);
    assert_eq!(overflow, true);
    assert_eq!(timer.value, 128);
}

#[test]
fn divider_zeroed() {
    let mut mem = MemoryBus::new_empty_memory();
    mem.step(10);
    assert_eq!(mem.divider.value, 10);
    assert_eq!(mem.read_byte(0xFF04), 10);
    mem.write_byte(0xFF04, 1);
    assert_eq!(mem.divider.value, 0);
}

#[test]
fn write_echo_ram() {
    let mut mem = MemoryBus::new_empty_memory();
    let value = 100;
    mem.write_byte(0xE000 + 5, value);
    let memory_value = mem.read_byte(0xC000 + 5);
    assert_eq!(value, memory_value);
}

#[test]
fn write_palette_data() {
    let mut mem = MemoryBus::new_empty_memory();
    let value = 0xFC;
    mem.write_byte(0xFF47, value);
    assert_eq!(mem.gpu.background_window_palette.0 as u8, Color::White as u8);
    assert_eq!(mem.gpu.background_window_palette.1 as u8, Color::Black as u8);
    assert_eq!(mem.gpu.background_window_palette.2 as u8, Color::Black as u8);
    assert_eq!(mem.gpu.background_window_palette.3 as u8, Color::Black as u8);
}

#[test]
fn echo_range_aliases_work_ram() {
    let mut mem = MemoryBus::new_empty_memory();
    for offset in [0u16, 1, 0x1000, 0x1DFE, 0x1DFF] {
        mem.write_byte(0xC000 + offset, (offset % 251) as u8);
        assert_eq!(mem.read_byte(0xE000 + offset), mem.read_byte(0xC000 + offset));
    }
}

#[test]
fn work_ram_write_read_scenario() {
    let mut mem = MemoryBus::new_empty_memory();
    mem.write_byte(0xE005, 100);
    assert_eq!(mem.read_byte(0xC005), 100);
}

#[test]
fn timer_overflow_scenario() {
    let mut mem = MemoryBus::new_empty_memory();
    mem.write_byte(0xFF06, 128);
    mem.write_byte(0xFF05, 255);
    mem.write_byte(0xFF07, 0b100);
    for _ in 0..(1024 / 64) {
        mem.step(64);
    }
    assert_eq!(mem.read_byte(0xFF05), 128);
    assert_eq!(mem.read_byte(0xFF0F) & 0b100, 0b100);
}

#[test]
fn boot_overlay_unloads_on_write() {
    let mut game = vec![0x42u8; 0x10000];
    game[0] = 0x77;
    let boot = vec![0x99u8; 256];
    let mut mem = MemoryBus::new(Some(boot), game);
    assert_eq!(mem.read_byte(0x0000), 0x99);
    mem.write_byte(0xFF50, 1);
    assert_eq!(mem.read_byte(0x0000), 0x77);
}

#[test]
fn unusable_range_reads_high() {
    let mut mem = MemoryBus::new_empty_memory();
    mem.write_byte(0xFEA5, 7);
    assert_eq!(mem.read_byte(0xFEA5), 0xFF);
}

#[test]
fn interrupt_enable_register_round_trip() {
    let mut mem = MemoryBus::new_empty_memory();
    mem.write_byte(0xFFFF, 0b10101);
    assert_eq!(mem.read_byte(0xFFFF), 0b1110_0000 | 0b10101);
}
