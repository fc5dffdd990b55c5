use erki_boy::flags_register::FlagsRegister;
use erki_boy::registers::Registers;

#[test]
fn converting_to_u8() {
    let mut flags = FlagsRegister::new();
    flags.zero = true;
    flags.carry = true;
    let result: u8 = flags.to_byte();
    assert_eq!(result, 0b1001_0000u8);
}

#[test]
fn converting_from_u8() {
    let flags = 0b0101_0000u8;
    let result = FlagsRegister::from_byte(flags);
    assert_eq!(result.subtract, true);
    assert_eq!(result.carry, true);
}

#[test]
fn setting_bc_registers() {
    let mut registers = Registers::new();
    let value = 0b1010_1100_0010_0101;
    registers.set_bc(value);
    assert_eq!(registers.b, 0b1010_1100u8);
    assert_eq!(registers.c, 0b0010_0101u8);
    assert_eq!(registers.get_bc(), value);
}

#[test]
fn setting_de_registers() {
    let mut registers = Registers::new();
    let value = 0b1010_1100_0010_0101;
    registers.set_de(value);
    assert_eq!(registers.d, 0b1010_1100u8);
    assert_eq!(registers.e, 0b0010_0101u8);
    assert_eq!(registers.get_de(), value);
}

#[test]
fn setting_hl_registers() {
    let mut registers = Registers::new();
    let value = 0b1010_1100_0010_0101;
    registers.set_hl(value);
    assert_eq!(registers.h, 0b1010_1100u8);
    assert_eq!(registers.l, 0b0010_0101u8);
    assert_eq!(registers.get_hl(), value);
}

#[test]
fn setting_af_registers() {
    let mut registers = Registers::new();
    let value = 0b1010_1100_0010_0000;
    registers.set_af(value);
    let flags: u8 = registers.f.to_byte();
    assert_eq!(registers.a, 0b1010_1100u8);
    assert_eq!(flags, 0b0010_0000u8);
    assert_eq!(registers.get_af(), value);
}

#[test]
fn setting_f_as_u8() {
    let mut registers = Registers::new();
    let value = 0b1100_0000;
    registers.f = FlagsRegister::from_byte(value);
    let result: u8 = registers.f.to_byte();
    assert_eq!(result, value);
}

#[test]
fn setting_f_from_struct() {
    let mut registers = Registers::new();
    let mut value = FlagsRegister::new();
    value.zero = true;
    value.carry = true;
    registers.f = value;
    let result: u8 = registers.f.to_byte();
    let value: u8 = value.to_byte();
    assert_eq!(result, value);
}

#[test]
fn flag_byte_low_nibble_reads_zero() {
    for byte in 0..=255u8 {
        let flags = FlagsRegister::from_byte(byte);
        assert_eq!(flags.to_byte() & 0x0F, 0);
        assert_eq!(flags.to_byte(), byte & 0xF0);
    }
}

#[test]
fn af_round_trip_masks_low_nibble() {
    let mut registers = Registers::new();
    registers.set_af(0xABCD);
    assert_eq!(registers.get_af(), 0xABCD & 0xFFF0);
}
