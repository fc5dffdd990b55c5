use erki_boy::cpu::CPU;
use erki_boy::instruction::ArithmeticHLTarget;
use erki_boy::instruction::ArithmeticTarget;
use erki_boy::instruction::BitPosition;
use erki_boy::instruction::IncDecTarget;
use erki_boy::instruction::Instruction;
use erki_boy::instruction::PrefixTarget;

#[test]
fn nop() {
    let mut cpu = CPU::new(None, vec![0; 0x10000]);
    cpu.bus.write_byte(0, 0x00);
    cpu.step();
    assert_eq!(cpu.pc, 1);
}

#[test]
fn enable_interrupt() {
    let mut cpu = CPU::new(None, vec![0; 0x10000]);
    cpu.interrupt_enabled = false;
    cpu.bus.write_byte(0, 0xFB);
    cpu.bus.write_byte(1, 0x00);
    cpu.step();
    assert_eq!(cpu.interrupt_enabled, true);
    cpu.step();
    assert_eq!(cpu.interrupt_enabled, true);
    assert_eq!(cpu.pc, 2);
}

#[test]
fn disable_interrupt() {
    let mut cpu = CPU::new(None, vec![0; 0x10000]);
    cpu.bus.write_byte(0, 0xF3);
    cpu.bus.write_byte(1, 0x00);
    cpu.step();
    assert_eq!(cpu.interrupt_enabled, false);
    cpu.step();
    assert_eq!(cpu.interrupt_enabled, false);
    assert_eq!(cpu.pc, 2);
}

#[test]
fn restart() {
    let mut cpu = CPU::new(None, vec![0; 0x10000]);
    cpu.pc = 100;
    cpu.sp = 0x10;
    cpu.bus.write_byte(100, 0xDF);
    cpu.step();
    assert_eq!(cpu.pc, 0x18);
    assert_eq!(cpu.sp, 0x0E);
    assert_eq!(cpu.bus.read_byte(cpu.sp), 0x65);
    assert_eq!(cpu.bus.read_byte(cpu.sp + 2), 0x00);
}

#[test]
fn return_enable_interrupt() {
    let mut cpu = CPU::new(None, vec![0; 0x10000]);
    cpu.pc = 100;
    cpu.sp = 0x10;
    cpu.bus.write_byte(100, 0xD9);
    cpu.bus.write_byte(0x10, 0x01);
    cpu.bus.write_byte(0x11, 0x05);
    cpu.step();
    assert_eq!(cpu.interrupt_enabled, true);
    assert_eq!(cpu.sp, 0x12);
    assert_eq!(cpu.pc, 0x0501);
}

#[test]
fn decimal_adjust() {
    let mut cpu = CPU::new(None, vec![0; 0x10000]);
    cpu.registers.a = 0b0000_0101 + 0b0000_0101;
    cpu.execute(Instruction::DAA);
    assert_eq!(cpu.registers.a, 0b0001_0000);
    cpu.registers.a = 0b0001_0110 + 0b0001_0110;
    cpu.execute(Instruction::DAA);
    assert_eq!(cpu.registers.a, 0b0011_0010);
}

#[test]
fn load_word_into_16bit_register() {
    let mut cpu = CPU::new(None, vec![0; 0x10000]);
    cpu.bus.write_byte(0, 0x01);
    cpu.bus.write_byte(1, 0x11);
    cpu.bus.write_byte(2, 0x01);
    cpu.step();
    assert_eq!(cpu.registers.get_bc(), 0x0111);
}

#[test]
fn load_16bit_value_to_address_at_bc_from_a() {
    let mut cpu = CPU::new(None, vec![0; 0x10000]);
    cpu.registers.a = 5;
    cpu.registers.set_bc(0x04);
    cpu.bus.write_byte(0, 0x02);
    cpu.step();
    assert_eq!(cpu.bus.read_byte(0x04), 5);
}

#[test]
fn load_16bit_value_to_address_at_hl_from_a() {
    let mut cpu = CPU::new(None, vec![0; 0x10000]);
    cpu.registers.a = 5;
    cpu.registers.set_hl(0x04);
    cpu.bus.write_byte(0, 0x22);
    cpu.step();
    assert_eq!(cpu.bus.read_byte(0x04), 5);
    assert_eq!(cpu.registers.get_hl(), 5);
}

#[test]
fn load_16bit_value_to_a_from_address_from_a() {
    let mut cpu = CPU::new(None, vec![0; 0x10000]);
    cpu.registers.set_bc(0x04);
    cpu.bus.write_byte(0, 0x0A);
    cpu.bus.write_byte(4, 0x0A);
    cpu.step();
    assert_eq!(cpu.registers.a, 10);
}

#[test]
fn load_8bit_value_to_b() {
    let mut cpu = CPU::new(None, vec![0; 0x10000]);
    cpu.bus.write_byte(0, 0x06);
    cpu.bus.write_byte(1, 0x19);
    cpu.step();
    assert_eq!(cpu.pc, 2);
    assert_eq!(cpu.registers.b, 25);
}

#[test]
fn load_value_from_b_to_c() {
    let mut cpu = CPU::new(None, vec![0; 0x10000]);
    cpu.registers.b = 15;
    cpu.bus.write_byte(0, 0x48);
    cpu.step();
    assert_eq!(cpu.pc, 1);
    assert_eq!(cpu.registers.b, 15);
    assert_eq!(cpu.registers.c, 15);
}

#[test]
fn load_value_from_address_in_hl_to_e() {
    let mut cpu = CPU::new(None, vec![0; 0x10000]);
    cpu.bus.write_byte(0, 0x5E);
    cpu.bus.write_byte(3, 0x48);
    cpu.registers.set_hl(3);
    cpu.step();
    assert_eq!(cpu.registers.e, 0x48);
}

#[test]
fn load_value_to_address_in_hl_from_e() {
    let mut cpu = CPU::new(None, vec![0; 0x10000]);
    cpu.registers.e = 5;
    cpu.bus.write_byte(0, 0x73);
    cpu.registers.set_hl(3);
    cpu.step();
    assert_eq!(cpu.bus.read_byte(3), 5);
}

#[test]
fn load_byte_address_from_a() {
    let mut cpu = CPU::new(None, vec![0; 0x10000]);
    cpu.registers.a = 101;
    cpu.bus.write_byte(0, 0xE0);
    cpu.bus.write_byte(1, 0x8D);
    cpu.step();
    assert_eq!(cpu.bus.read_byte(0xFF8D), 101);
}

#[test]
fn load_a_from_byte_address() {
    let mut cpu = CPU::new(None, vec![0; 0x10000]);
    cpu.bus.write_byte(0, 0xF0);
    cpu.bus.write_byte(1, 0x8D);
    cpu.bus.write_byte(0xFF8D, 123);
    cpu.step();
    assert_eq!(cpu.registers.a, 123);
}

#[test]
fn load_a_from_address_last_byte_in_c() {
    let mut cpu = CPU::new(None, vec![0; 0x10000]);
    cpu.bus.write_byte(0, 0xF2);
    cpu.bus.write_byte(0xFF85, 123);
    cpu.registers.c = 0x85;
    cpu.step();
    assert_eq!(cpu.registers.a, 123);
}

#[test]
fn load_address_with_last_byte_in_c_from_a() {
    let mut cpu = CPU::new(None, vec![0; 0x10000]);
    cpu.registers.a = 101;
    cpu.bus.write_byte(0, 0xE2);
    cpu.registers.c = 0x85;
    cpu.step();
    assert_eq!(cpu.bus.read_byte(0xFF85), 101);
}

#[test]
fn load_hl_with_sp_and_byte() {
    let mut cpu = CPU::new(None, vec![0; 0x10000]);
    cpu.sp = 0x10;
    cpu.bus.write_byte(0, 0xF8);
    cpu.bus.write_byte(1, 0xE2);
    cpu.step();
    assert_eq!(cpu.registers.get_hl(), 0xFFF2);
}

#[test]
fn call() {
    let mut cpu = CPU::new(None, vec![0; 0x10000]);
    cpu.sp = 0x10;
    cpu.bus.write_byte(0, 0xCC);
    cpu.bus.write_byte(3, 0xC4);
    cpu.bus.write_byte(4, 0x14);
    cpu.bus.write_byte(5, 0x00);
    cpu.step();
    assert_eq!(cpu.pc, 3);
    cpu.step();
    assert_eq!(cpu.pc, 20);
    assert_eq!(cpu.sp, 0x0E);
}

#[test]
fn ret() {
    let mut cpu = CPU::new(None, vec![0; 0x10000]);
    cpu.sp = 0x10;
    cpu.bus.write_byte(0, 0xC4);
    cpu.bus.write_byte(1, 0x14);
    cpu.bus.write_byte(2, 0x00);
    cpu.bus.write_byte(20, 0x00);
    cpu.bus.write_byte(21, 0xC9);
    cpu.step();
    assert_eq!(cpu.pc, 20);
    assert_eq!(cpu.sp, 0x0E);
    cpu.step();
    assert_eq!(cpu.pc, 21);
    cpu.step();
    assert_eq!(cpu.pc, 3);
    assert_eq!(cpu.sp, 0x10);
}

#[test]
fn push_and_pop() {
    let mut cpu = CPU::new(None, vec![0; 0x10000]);
    cpu.sp = 0x10;
    cpu.bus.write_byte(0, 0xC5);
    cpu.bus.write_byte(1, 0xD1);
    cpu.registers.b = 0x4;
    cpu.registers.c = 0x89;
    cpu.step();

    assert_eq!(cpu.bus.read_byte(0x0F), 0x04);
    assert_eq!(cpu.bus.read_byte(0x0E), 0x89);
    assert_eq!(cpu.sp, 0x0E);
    assert_eq!(cpu.pc, 1);
    cpu.step();
    assert_eq!(cpu.pc, 2);
    assert_eq!(cpu.registers.d, 0x4);
    assert_eq!(cpu.registers.e, 0x89);
    assert_eq!(cpu.sp, 0x10);
}

#[test]
fn jump() {
    let mut cpu = CPU::new(None, vec![0; 0x10000]);
    cpu.bus.write_byte(0, 0x00);
    cpu.bus.write_byte(1, 0xC3);
    cpu.bus.write_byte(2, 0x01);
    cpu.bus.write_byte(3, 0x02);
    cpu.step();
    assert_eq!(cpu.pc, 1);
    cpu.step();
    assert_eq!(cpu.pc, 513);

    cpu.pc = 0;
    cpu.registers.f.zero = true;
    cpu.bus.write_byte(1, 0xCA);
    cpu.bus.write_byte(2, 0x01);
    cpu.bus.write_byte(3, 0x02);
    cpu.step();
    assert_eq!(cpu.pc, 1);
    cpu.step();
    assert_eq!(cpu.pc, 513);
    cpu.pc = 0;
    cpu.registers.f.zero = false;
    cpu.step();
    cpu.step();
    assert_eq!(cpu.pc, 4);
}

#[test]
fn jump_hl() {
    let mut cpu = CPU::new(None, vec![0; 0x10000]);
    cpu.registers.set_hl(412);
    cpu.bus.write_byte(0, 0xE9);
    cpu.step();
    assert_eq!(cpu.pc, 412);
}

#[test]
fn jump_relative() {
    let mut cpu = CPU::new(None, vec![0; 0x10000]);
    cpu.bus.write_byte(0, 0x18);
    cpu.bus.write_byte(1, 0x09);
    cpu.step();
    assert_eq!(cpu.pc, 11);
    cpu.bus.write_byte(11, 0x18);
    cpu.bus.write_byte(12, 255 - 5);
    cpu.step();
    assert_eq!(cpu.pc, 7);
}

#[test]
fn add_instruction() {
    let mut cpu = CPU::new(None, vec![0; 0x10000]);
    cpu.registers.a = 2;
    cpu.registers.c = 4;
    cpu.execute(Instruction::ADD(ArithmeticTarget::C));
    assert_eq!(cpu.registers.a, 6);
}

#[test]
fn add_byte_instruction() {
    let mut cpu = CPU::new(None, vec![0; 0x10000]);
    cpu.registers.a = 2;
    cpu.bus.write_byte(0, 0xC6);
    cpu.bus.write_byte(1, 0x01);
    cpu.step();
    assert_eq!(cpu.registers.a, 3);
}

#[test]
fn add_caused_overflow() {
    let mut cpu = CPU::new(None, vec![0; 0x10000]);
    cpu.registers.a = 254;
    cpu.registers.c = 3;
    cpu.execute(Instruction::ADD(ArithmeticTarget::C));
    assert_eq!(cpu.registers.f.carry, true);
    assert_eq!(cpu.registers.a, 1);
}

#[test]
fn add_caused_half_carry() {
    let mut cpu = CPU::new(None, vec![0; 0x10000]);
    cpu.registers.a = 15;
    cpu.registers.c = 4;
    cpu.execute(Instruction::ADD(ArithmeticTarget::C));
    assert_eq!(cpu.registers.f.half_carry, true);
    assert_eq!(cpu.registers.a, 19);
}

#[test]
fn add_was_zero() {
    let mut cpu = CPU::new(None, vec![0; 0x10000]);
    cpu.registers.a = 0;
    cpu.registers.c = 0;
    cpu.execute(Instruction::ADD(ArithmeticTarget::C));
    assert_eq!(cpu.registers.f.zero, true);
    assert_eq!(cpu.registers.a, 0);
    cpu.registers.a = 255;
    cpu.registers.c = 1;
    cpu.execute(Instruction::ADD(ArithmeticTarget::C));
    assert_eq!(cpu.registers.f.zero, true);
    assert_eq!(cpu.registers.f.carry, true);
    assert_eq!(cpu.registers.a, 0);
}

#[test]
fn add_sp() {
    let mut cpu = CPU::new(None, vec![0; 0x10000]);
    cpu.sp = 0x10;
    cpu.bus.write_byte(0, 0xE8);
    cpu.bus.write_byte(1, 0x10);
    cpu.step();
    assert_eq!(cpu.sp, 0x20);
}

#[test]
fn addhl() {
    let mut cpu = CPU::new(None, vec![0; 0x10000]);
    cpu.registers.set_hl(300);
    cpu.registers.set_bc(400);
    cpu.execute(Instruction::ADDHL(ArithmeticHLTarget::BC));
    assert_eq!(cpu.registers.get_hl(), 700);
}

#[test]
fn addhl_caused_half_carry() {
    let mut cpu = CPU::new(None, vec![0; 0x10000]);
    cpu.registers.set_hl(2023);
    cpu.registers.set_bc(101);
    cpu.execute(Instruction::ADDHL(ArithmeticHLTarget::BC));
    assert_eq!(cpu.registers.get_hl(), 2124);
    assert_eq!(cpu.registers.f.half_carry, false);
    cpu.registers.set_hl(0x0FFF);
    cpu.registers.set_bc(0x0001);
    cpu.execute(Instruction::ADDHL(ArithmeticHLTarget::BC));
    assert_eq!(cpu.registers.f.half_carry, true);
}

#[test]
fn addhl_caused_overflow() {
    let mut cpu = CPU::new(None, vec![0; 0x10000]);
    cpu.registers.set_hl(65500);
    cpu.registers.set_bc(100);
    cpu.execute(Instruction::ADDHL(ArithmeticHLTarget::BC));
    assert_eq!(cpu.registers.get_hl(), 64);
    assert_eq!(cpu.registers.f.carry, true);
}

#[test]
fn addc() {
    let mut cpu = CPU::new(None, vec![0; 0x10000]);
    cpu.registers.a = 0b10;
    cpu.registers.b = 0b100;
    cpu.registers.f.carry = true;
    cpu.execute(Instruction::ADC(ArithmeticTarget::B));
    assert_eq!(cpu.registers.a, 7);
    assert_eq!(cpu.registers.f.carry, false);
    cpu.registers.a = 2;
    cpu.registers.b = 4;
    cpu.registers.f.carry = false;
    cpu.execute(Instruction::ADC(ArithmeticTarget::B));
    assert_eq!(cpu.registers.a, 6);
}

#[test]
fn addc_caused_half_carry() {
    let mut cpu = CPU::new(None, vec![0; 0x10000]);
    cpu.registers.a = 12;
    cpu.registers.c = 4;
    cpu.registers.f.carry = true;
    cpu.execute(Instruction::ADC(ArithmeticTarget::C));
    assert_eq!(cpu.registers.a, 17);
    assert_eq!(cpu.registers.f.half_carry, true);
}

#[test]
fn addc_caused_overflow() {
    let mut cpu = CPU::new(None, vec![0; 0x10000]);
    cpu.registers.a = 251;
    cpu.registers.c = 4;
    cpu.registers.f.carry = true;
    cpu.execute(Instruction::ADC(ArithmeticTarget::C));
    assert_eq!(cpu.registers.a, 0);
    assert_eq!(cpu.registers.f.carry, true);
}

#[test]
fn sub() {
    let mut cpu = CPU::new(None, vec![0; 0x10000]);
    cpu.registers.a = 4;
    cpu.registers.c = 2;
    cpu.execute(Instruction::SUB(ArithmeticTarget::C));
    assert_eq!(cpu.registers.a, 2);
    assert_eq!(cpu.registers.f.subtract, true);
}

#[test]
fn sub_caused_half_carry() {
    let mut cpu = CPU::new(None, vec![0; 0x10000]);
    cpu.registers.a = 17;
    cpu.registers.c = 4;
    cpu.execute(Instruction::SUB(ArithmeticTarget::C));
    assert_eq!(cpu.registers.a, 13);
    assert_eq!(cpu.registers.f.half_carry, true);
}

#[test]
fn sub_caused_overflow() {
    let mut cpu = CPU::new(None, vec![0; 0x10000]);
    cpu.registers.a = 2;
    cpu.registers.c = 4;
    cpu.execute(Instruction::SUB(ArithmeticTarget::C));
    assert_eq!(cpu.registers.a, 254);
    assert_eq!(cpu.registers.f.carry, true);
}

#[test]
fn sbc() {
    let mut cpu = CPU::new(None, vec![0; 0x10000]);
    cpu.registers.a = 4;
    cpu.registers.c = 2;
    cpu.registers.f.carry = true;
    cpu.execute(Instruction::SBC(ArithmeticTarget::C));
    assert_eq!(cpu.registers.a, 1);
    assert_eq!(cpu.registers.f.subtract, true);
}

#[test]
fn sbc_caused_half_carry() {
    let mut cpu = CPU::new(None, vec![0; 0x10000]);
    cpu.registers.a = 20;
    cpu.registers.c = 4;
    cpu.registers.f.carry = true;
    cpu.execute(Instruction::SBC(ArithmeticTarget::C));
    assert_eq!(cpu.registers.a, 15);
    assert_eq!(cpu.registers.f.half_carry, true);
}

#[test]
fn sbc_caused_overflow() {
    let mut cpu = CPU::new(None, vec![0; 0x10000]);
    cpu.registers.a = 2;
    cpu.registers.c = 2;
    cpu.registers.f.carry = true;
    cpu.execute(Instruction::SBC(ArithmeticTarget::C));
    assert_eq!(cpu.registers.a, 255);
    assert_eq!(cpu.registers.f.carry, true);
}

#[test]
fn and() {
    let mut cpu = CPU::new(None, vec![0; 0x10000]);
    cpu.registers.a = 3;
    cpu.registers.c = 2;
    cpu.execute(Instruction::AND(ArithmeticTarget::C));
    assert_eq!(cpu.registers.a, 2);
}

#[test]
fn or() {
    let mut cpu = CPU::new(None, vec![0; 0x10000]);
    cpu.registers.a = 3;
    cpu.registers.c = 4;
    cpu.execute(Instruction::OR(ArithmeticTarget::C));
    assert_eq!(cpu.registers.a, 7);
}

#[test]
fn xor() {
    let mut cpu = CPU::new(None, vec![0; 0x10000]);
    cpu.registers.a = 7;
    cpu.registers.c = 4;
    cpu.execute(Instruction::XOR(ArithmeticTarget::C));
    assert_eq!(cpu.registers.a, 3);
}

#[test]
fn cp() {
    let mut cpu = CPU::new(None, vec![0; 0x10000]);
    cpu.registers.a = 7;
    cpu.registers.c = 8;
    cpu.execute(Instruction::CP(ArithmeticTarget::C));
    assert_eq!(cpu.registers.f.carry, true);
    assert_eq!(cpu.registers.f.subtract, true);
    assert_eq!(cpu.registers.f.half_carry, true);
    assert_eq!(cpu.registers.f.zero, false);
}

#[test]
fn increment_8bit_register() {
    let mut cpu = CPU::new(None, vec![0; 0x10000]);
    cpu.registers.b = 7;
    cpu.execute(Instruction::INC(IncDecTarget::B));
    assert_eq!(cpu.registers.b, 8);
    assert_eq!(cpu.registers.f.zero, false);
}

#[test]
fn increment_8bit_register_overflow() {
    let mut cpu = CPU::new(None, vec![0; 0x10000]);
    cpu.registers.b = 255;
    cpu.execute(Instruction::INC(IncDecTarget::B));
    assert_eq!(cpu.registers.b, 0);
    assert_eq!(cpu.registers.f.zero, true);
    assert_eq!(cpu.registers.f.half_carry, true);
}

#[test]
fn increment_16bit_register() {
    let mut cpu = CPU::new(None, vec![0; 0x10000]);
    cpu.registers.set_bc(1020);
    cpu.execute(Instruction::INC(IncDecTarget::BC));
    assert_eq!(cpu.registers.get_bc(), 1021);
}

#[test]
fn increment_16bit_register_overflow() {
    let mut cpu = CPU::new(None, vec![0; 0x10000]);
    cpu.registers.set_bc(0xFFFF);
    cpu.execute(Instruction::INC(IncDecTarget::BC));
    assert_eq!(cpu.registers.get_bc(), 0);
}

#[test]
fn increment_16bit_register_byte_overflow() {
    let mut cpu = CPU::new(None, vec![0; 0x10000]);
    cpu.registers.set_bc(0xFF);
    cpu.execute(Instruction::INC(IncDecTarget::BC));
    assert_eq!(cpu.registers.get_bc(), 0x0100);
}

#[test]
fn decrement_8bit_register() {
    let mut cpu = CPU::new(None, vec![0; 0x10000]);
    cpu.registers.b = 7;
    cpu.execute(Instruction::DEC(IncDecTarget::B));
    assert_eq!(cpu.registers.b, 6);
    assert_eq!(cpu.registers.f.zero, false);
}

#[test]
fn decrement_8bit_register_underflow() {
    let mut cpu = CPU::new(None, vec![0; 0x10000]);
    cpu.registers.b = 0;
    cpu.execute(Instruction::DEC(IncDecTarget::B));
    assert_eq!(cpu.registers.b, 255);
    assert_eq!(cpu.registers.f.zero, false);
    assert_eq!(cpu.registers.f.half_carry, true);
}

#[test]
fn decrement_16bit_register() {
    let mut cpu = CPU::new(None, vec![0; 0x10000]);
    cpu.registers.set_bc(1020);
    cpu.execute(Instruction::DEC(IncDecTarget::BC));
    assert_eq!(cpu.registers.get_bc(), 1019);
}

#[test]
fn decrement_16bit_register_underflow() {
    let mut cpu = CPU::new(None, vec![0; 0x10000]);
    cpu.registers.set_bc(0x0);
    cpu.execute(Instruction::DEC(IncDecTarget::BC));
    assert_eq!(cpu.registers.get_bc(), 0xFFFF);
    assert_eq!(cpu.registers.f.zero, false);
    assert_eq!(cpu.registers.f.carry, false);
}

#[test]
fn decrement_16bit_register_byte_underflow() {
    let mut cpu = CPU::new(None, vec![0; 0x10000]);
    cpu.registers.set_bc(0x100);
    cpu.execute(Instruction::DEC(IncDecTarget::BC));
    assert_eq!(cpu.registers.get_bc(), 0xFF);
}

#[test]
fn ccf() {
    let mut cpu = CPU::new(None, vec![0; 0x10000]);
    cpu.registers.f.carry = true;
    cpu.execute(Instruction::CCF);
    assert_eq!(cpu.registers.f.carry, false);
}

#[test]
fn scf() {
    let mut cpu = CPU::new(None, vec![0; 0x10000]);
    cpu.registers.f.carry = true;
    cpu.execute(Instruction::SCF);
    assert_eq!(cpu.registers.f.carry, true);
    assert_eq!(cpu.registers.f.subtract, false);
    assert_eq!(cpu.registers.f.half_carry, false);
}

#[test]
fn rra() {
    let mut cpu = CPU::new(None, vec![0; 0x10000]);
    cpu.registers.a = 0b00000101;
    cpu.registers.f.carry = true;
    cpu.execute(Instruction::RRA);
    assert_eq!(cpu.registers.a, 0b10000010);
    assert_eq!(cpu.registers.f.carry, true);
}

#[test]
fn rla() {
    let mut cpu = CPU::new(None, vec![0; 0x10000]);
    cpu.registers.a = 0b00000101;
    cpu.registers.f.carry = true;
    cpu.execute(Instruction::RLA);
    assert_eq!(cpu.registers.a, 0b00001011);
    assert_eq!(cpu.registers.f.carry, false);
}

#[test]
fn rrca() {
    let mut cpu = CPU::new(None, vec![0; 0x10000]);
    cpu.registers.a = 0b00000101;
    cpu.registers.f.carry = true;
    cpu.execute(Instruction::RRCA);
    assert_eq!(cpu.registers.a, 0b10000010);
    assert_eq!(cpu.registers.f.carry, true);
}

#[test]
fn rlca() {
    let mut cpu = CPU::new(None, vec![0; 0x10000]);
    cpu.registers.a = 0b00000101;
    cpu.registers.f.carry = true;
    cpu.execute(Instruction::RLCA);
    assert_eq!(cpu.registers.a, 0b00001010);
    assert_eq!(cpu.registers.f.carry, false);
}

#[test]
fn cpl() {
    let mut cpu = CPU::new(None, vec![0; 0x10000]);
    cpu.registers.a = 0b01100101;
    cpu.execute(Instruction::CPL);
    assert_eq!(cpu.registers.a, 0b10011010);
    assert_eq!(cpu.registers.f.subtract, true);
    assert_eq!(cpu.registers.f.half_carry, true);
}

#[test]
fn bit() {
    let mut cpu = CPU::new(None, vec![0; 0x10000]);
    cpu.registers.b = 0b10011000;
    cpu.registers.f.zero = true;
    cpu.execute(Instruction::BIT(PrefixTarget::B, BitPosition::B4));
    assert_eq!(cpu.registers.f.zero, false);
    cpu.execute(Instruction::BIT(PrefixTarget::B, BitPosition::B2));
    assert_eq!(cpu.registers.f.zero, true);
}

#[test]
fn reset() {
    let mut cpu = CPU::new(None, vec![0; 0x10000]);
    cpu.registers.b = 0b10011000;
    cpu.execute(Instruction::RES(PrefixTarget::B, BitPosition::B4));
    cpu.execute(Instruction::BIT(PrefixTarget::B, BitPosition::B4));
    assert_eq!(cpu.registers.f.zero, true);
}

#[test]
fn set() {
    let mut cpu = CPU::new(None, vec![0; 0x10000]);
    cpu.registers.b = 0b10010000;
    cpu.execute(Instruction::BIT(PrefixTarget::B, BitPosition::B3));
    assert_eq!(cpu.registers.f.zero, true);
    cpu.execute(Instruction::SET(PrefixTarget::B, BitPosition::B3));
    cpu.execute(Instruction::BIT(PrefixTarget::B, BitPosition::B3));
    assert_eq!(cpu.registers.f.zero, false);
}

#[test]
fn srl() {
    let mut cpu = CPU::new(None, vec![0; 0x10000]);
    cpu.registers.b = 0b10010000;
    cpu.execute(Instruction::SRL(PrefixTarget::B));
    assert_eq!(cpu.registers.f.zero, false);
    assert_eq!(cpu.registers.f.carry, false);
    assert_eq!(cpu.registers.b, 0b01001000);
    cpu.registers.b = 0b00000001;
    cpu.execute(Instruction::SRL(PrefixTarget::B));
    assert_eq!(cpu.registers.f.zero, true);
    assert_eq!(cpu.registers.b, 0);
    assert_eq!(cpu.registers.f.carry, true);
}

#[test]
fn rr() {
    let mut cpu = CPU::new(None, vec![0; 0x10000]);
    cpu.registers.b = 0b10010000;
    cpu.execute(Instruction::RR(PrefixTarget::B));
    assert_eq!(cpu.registers.f.zero, false);
    assert_eq!(cpu.registers.f.carry, false);
    assert_eq!(cpu.registers.b, 0b01001000);
    cpu.registers.b = 0b00000001;
    cpu.registers.f.carry = true;
    cpu.execute(Instruction::RR(PrefixTarget::B));
    assert_eq!(cpu.registers.f.zero, false);
    assert_eq!(cpu.registers.b, 0b10000000);
    assert_eq!(cpu.registers.f.carry, true);
}

#[test]
fn rl() {
    let mut cpu = CPU::new(None, vec![0; 0x10000]);
    cpu.registers.b = 0b10010000;
    cpu.execute(Instruction::RL(PrefixTarget::B));
    assert_eq!(cpu.registers.f.zero, false);
    assert_eq!(cpu.registers.f.carry, true);
    assert_eq!(cpu.registers.b, 0b00100000);
    cpu.registers.b = 0b10000001;
    cpu.registers.f.carry = true;
    cpu.execute(Instruction::RL(PrefixTarget::B));
    assert_eq!(cpu.registers.f.zero, false);
    assert_eq!(cpu.registers.b, 0b00000011);
    assert_eq!(cpu.registers.f.carry, true);
}

#[test]
fn rrc() {
    let mut cpu = CPU::new(None, vec![0; 0x10000]);
    cpu.registers.b = 0b10010000;
    cpu.execute(Instruction::RRC(PrefixTarget::B));
    assert_eq!(cpu.registers.f.zero, false);
    assert_eq!(cpu.registers.f.carry, false);
    assert_eq!(cpu.registers.b, 0b01001000);
    cpu.registers.b = 0b10000001;
    cpu.registers.f.carry = true;
    cpu.execute(Instruction::RRC(PrefixTarget::B));
    assert_eq!(cpu.registers.f.zero, false);
    assert_eq!(cpu.registers.b, 0b11000000);
    assert_eq!(cpu.registers.f.carry, true);
}

#[test]
fn rlc() {
    let mut cpu = CPU::new(None, vec![0; 0x10000]);
    cpu.registers.b = 0b10010000;
    cpu.execute(Instruction::RLC(PrefixTarget::B));
    assert_eq!(cpu.registers.f.zero, false);
    assert_eq!(cpu.registers.f.carry, true);
    assert_eq!(cpu.registers.b, 0b00100001);
    cpu.registers.b = 0b10000001;
    cpu.registers.f.carry = true;
    cpu.execute(Instruction::RLC(PrefixTarget::B));
    assert_eq!(cpu.registers.f.zero, false);
    assert_eq!(cpu.registers.b, 0b00000011);
    assert_eq!(cpu.registers.f.carry, true);
}

#[test]
fn sra() {
    let mut cpu = CPU::new(None, vec![0; 0x10000]);
    cpu.registers.b = 0b10010000;
    cpu.execute(Instruction::SRA(PrefixTarget::B));
    assert_eq!(cpu.registers.f.zero, false);
    assert_eq!(cpu.registers.f.carry, false);
    assert_eq!(cpu.registers.b, 0b11001000);
    cpu.registers.b = 0b10000001;
    cpu.registers.f.carry = true;
    cpu.execute(Instruction::SRA(PrefixTarget::B));
    assert_eq!(cpu.registers.f.zero, false);
    assert_eq!(cpu.registers.b, 0b11000000);
    assert_eq!(cpu.registers.f.carry, true);
}

#[test]
fn swap() {
    let mut cpu = CPU::new(None, vec![0; 0x10000]);
    cpu.registers.b = 0b10010110;
    cpu.execute(Instruction::SWAP(PrefixTarget::B));
    assert_eq!(cpu.registers.f.zero, false);
    assert_eq!(cpu.registers.f.carry, false);
    assert_eq!(cpu.registers.b, 0b01101001);
    cpu.registers.b = 0b00000001;
    cpu.registers.f.carry = true;
    cpu.execute(Instruction::SLA(PrefixTarget::B));
    assert_eq!(cpu.registers.f.zero, false);
    assert_eq!(cpu.registers.b, 0b00000010);
    assert_eq!(cpu.registers.f.carry, false);
}

#[test]
fn pc_increase_with_step() {
    let mut cpu = CPU::new(None, vec![0; 0x10000]);
    cpu.bus.write_byte(0, 0x00);
    cpu.bus.write_byte(1, 0x3C);
    cpu.bus.write_byte(2, 0x13);
    cpu.step();
    assert_eq!(cpu.pc, 1);
    cpu.step();
    assert_eq!(cpu.pc, 2);
    assert_eq!(cpu.registers.a, 1);
    cpu.step();
    assert_eq!(cpu.pc, 3);
    assert_eq!(cpu.registers.get_de(), 1);
}

#[test]
fn run_prefixed_command() {
    let mut cpu = CPU::new(None, vec![0; 0x10000]);
    cpu.bus.write_byte(0, 0xCB);
    cpu.bus.write_byte(1, 0x37);
    cpu.registers.a = 0xEF;
    cpu.step();
    assert_eq!(cpu.pc, 2);
    assert_eq!(cpu.registers.a, 0xFE);
}

#[test]
fn alu_add_scenario() {
    let mut cpu = CPU::new(None, vec![0; 0x10000]);
    cpu.registers.a = 0xFE;
    cpu.registers.f.carry = false;
    cpu.registers.c = 3;
    cpu.execute(Instruction::ADD(ArithmeticTarget::C));
    assert_eq!(cpu.registers.a, 0x01);
    assert_eq!(cpu.registers.f.zero, false);
    assert_eq!(cpu.registers.f.subtract, false);
    assert_eq!(cpu.registers.f.half_carry, true);
    assert_eq!(cpu.registers.f.carry, true);
}

#[test]
fn alu_bcd_adjust_scenario() {
    let mut cpu = CPU::new(None, vec![0; 0x10000]);
    cpu.registers.a = 0x0A;
    cpu.execute(Instruction::DAA);
    assert_eq!(cpu.registers.a, 0x10);
    assert_eq!(cpu.registers.f.zero, false);
    assert_eq!(cpu.registers.f.subtract, false);
    assert_eq!(cpu.registers.f.half_carry, false);
    assert_eq!(cpu.registers.f.carry, false);
}

#[test]
fn restart_pushes_return_address() {
    let mut cpu = CPU::new(None, vec![0; 0x10000]);
    cpu.sp = 0x0010;
    cpu.pc = 0x0064;
    cpu.bus.write_byte(0x0064, 0xDF);
    cpu.step();
    assert_eq!(cpu.pc, 0x0018);
    assert_eq!(cpu.sp, 0x000E);
    assert_eq!(cpu.bus.read_byte(0x000E), 0x65);
    assert_eq!(cpu.bus.read_byte(0x000F), 0x00);
}

#[test]
fn push_then_pop_round_trips() {
    let mut cpu = CPU::new(None, vec![0; 0x10000]);
    cpu.sp = 0xD000;
    cpu.registers.set_de(0xBEEF);
    cpu.bus.write_byte(0, 0xD5);
    cpu.bus.write_byte(1, 0xC1);
    cpu.step();
    cpu.step();
    assert_eq!(cpu.sp, 0xD000);
    assert_eq!(cpu.registers.get_bc(), 0xBEEF);
}
