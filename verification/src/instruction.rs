//! The instruction decoder: one byte, together with a flag saying whether the
//! 0xCB prefix preceded it, decodes to a typed instruction. The prefixed
//! table is total over 0x00..0xFF. The unprefixed table is total except for
//! the eleven illegal opcodes and 0xCB itself, which is the prefix and not a
//! standalone instruction.

use vstd::prelude::*;

verus! {

#[derive(Copy, Clone, PartialEq, Eq, Structural, Debug)]
pub enum Instruction {
    NOP,
    HALT,
    STOP,
    DI,
    EI,
    RETI,
    CCF,
    SCF,
    RRA,
    RLA,
    RRCA,
    RLCA,
    CPL,
    ADDSP,
    DAA,
    RST(RestartOffset),
    CALL(JumpTest),
    RET(JumpTest),
    PUSH(StackTarget),
    POP(StackTarget),
    LD(LoadType),
    JP(JumpTest),
    JR(JumpTest),
    JPHL,
    ADC(ArithmeticTarget),
    ADD(ArithmeticTarget),
    SUB(ArithmeticTarget),
    SBC(ArithmeticTarget),
    AND(ArithmeticTarget),
    OR(ArithmeticTarget),
    XOR(ArithmeticTarget),
    CP(ArithmeticTarget),
    ADDHL(ArithmeticHLTarget),
    INC(IncDecTarget),
    DEC(IncDecTarget),
    SRL(PrefixTarget),
    RR(PrefixTarget),
    RL(PrefixTarget),
    RRC(PrefixTarget),
    RLC(PrefixTarget),
    SRA(PrefixTarget),
    SLA(PrefixTarget),
    SWAP(PrefixTarget),
    BIT(PrefixTarget, BitPosition),
    RES(PrefixTarget, BitPosition),
    SET(PrefixTarget, BitPosition),
}

/// The eight fixed restart vectors, named by their target address.
#[derive(Copy, Clone, PartialEq, Eq, Structural, Debug)]
pub enum RestartOffset {
    D00H,
    D08H,
    D10H,
    D18H,
    D20H,
    D28H,
    D30H,
    D38H,
}

/// The address a restart vector jumps to.
pub open spec fn spec_restart_address(offset: RestartOffset) -> u16 {
    match offset {
        RestartOffset::D00H => 0x00,
        RestartOffset::D08H => 0x08,
        RestartOffset::D10H => 0x10,
        RestartOffset::D18H => 0x18,
        RestartOffset::D20H => 0x20,
        RestartOffset::D28H => 0x28,
        RestartOffset::D30H => 0x30,
        RestartOffset::D38H => 0x38,
    }
}

impl RestartOffset {
    pub fn address(self) -> (r: u16)
        ensures
            r == spec_restart_address(self),
    {
        match self {
            RestartOffset::D00H => 0x00,
            RestartOffset::D08H => 0x08,
            RestartOffset::D10H => 0x10,
            RestartOffset::D18H => 0x18,
            RestartOffset::D20H => 0x20,
            RestartOffset::D28H => 0x28,
            RestartOffset::D30H => 0x30,
            RestartOffset::D38H => 0x38,
        }
    }
}

/// The five branch conditions: Z set, Z clear, C set, C clear, or always.
#[derive(Copy, Clone, PartialEq, Eq, Structural, Debug)]
pub enum JumpTest {
    NotZero,
    Zero,
    NotCarry,
    Carry,
    Always,
}

#[derive(Copy, Clone, PartialEq, Eq, Structural, Debug)]
pub enum StackTarget {
    AF,
    BC,
    DE,
    HL,
}

#[derive(Copy, Clone, PartialEq, Eq, Structural, Debug)]
pub enum LoadType {
    Byte(LoadByteTarget, LoadByteSource),
    Word(LoadWordTarget),
    IndirectFromA(Indirect),
    AFromIndirect(Indirect),
    ByteAddressFromA,
    AFromByteAddress,
    SPFromHL,
    HLFromSPN,
    IndirectFromSP,
}

#[derive(Copy, Clone, PartialEq, Eq, Structural, Debug)]
pub enum LoadWordTarget {
    BC,
    DE,
    HL,
    SP,
}

#[derive(Copy, Clone, PartialEq, Eq, Structural, Debug)]
pub enum Indirect {
    BC,
    DE,
    HLPlus,
    HLMinus,
    Word,
    LastByte,
}

#[derive(Copy, Clone, PartialEq, Eq, Structural, Debug)]
pub enum LoadByteTarget {
    A,
    B,
    C,
    D,
    E,
    H,
    L,
    HLI,
}

#[derive(Copy, Clone, PartialEq, Eq, Structural, Debug)]
pub enum LoadByteSource {
    A,
    B,
    C,
    D,
    E,
    H,
    L,
    D8,
    HLI,
}

#[derive(Copy, Clone, PartialEq, Eq, Structural, Debug)]
pub enum ArithmeticHLTarget {
    BC,
    DE,
    HL,
    SP,
}

#[derive(Copy, Clone, PartialEq, Eq, Structural, Debug)]
pub enum ArithmeticTarget {
    A,
    B,
    C,
    D,
    E,
    H,
    L,
    HLI,
    D8,
}

#[derive(Copy, Clone, PartialEq, Eq, Structural, Debug)]
pub enum IncDecTarget {
    A,
    B,
    C,
    D,
    E,
    H,
    L,
    BC,
    DE,
    HL,
    HLI,
    SP,
}

#[derive(Copy, Clone, PartialEq, Eq, Structural, Debug)]
pub enum PrefixTarget {
    A,
    B,
    C,
    D,
    E,
    H,
    L,
    HLI,
}

#[derive(Copy, Clone, PartialEq, Eq, Structural, Debug)]
pub enum BitPosition {
    B0,
    B1,
    B2,
    B3,
    B4,
    B5,
    B6,
    B7,
}

/// The bit number a position names.
pub open spec fn spec_bit_index(position: BitPosition) -> u8 {
    match position {
        BitPosition::B0 => 0,
        BitPosition::B1 => 1,
        BitPosition::B2 => 2,
        BitPosition::B3 => 3,
        BitPosition::B4 => 4,
        BitPosition::B5 => 5,
        BitPosition::B6 => 6,
        BitPosition::B7 => 7,
    }
}

impl BitPosition {
    pub fn index(self) -> (r: u8)
        ensures
            r == spec_bit_index(self),
    {
        match self {
            BitPosition::B0 => 0,
            BitPosition::B1 => 1,
            BitPosition::B2 => 2,
            BitPosition::B3 => 3,
            BitPosition::B4 => 4,
            BitPosition::B5 => 5,
            BitPosition::B6 => 6,
            BitPosition::B7 => 7,
        }
    }
}

/// The register operand an opcode's low three bits name, in the fixed order
/// B, C, D, E, H, L, (HL), A.
pub open spec fn spec_prefix_target(code: u8) -> PrefixTarget {
    if code == 0 {
        PrefixTarget::B
    } else if code == 1 {
        PrefixTarget::C
    } else if code == 2 {
        PrefixTarget::D
    } else if code == 3 {
        PrefixTarget::E
    } else if code == 4 {
        PrefixTarget::H
    } else if code == 5 {
        PrefixTarget::L
    } else if code == 6 {
        PrefixTarget::HLI
    } else {
        PrefixTarget::A
    }
}

/// The bit position an opcode's group index names.
pub open spec fn spec_bit_position(code: u8) -> BitPosition {
    if code == 0 {
        BitPosition::B0
    } else if code == 1 {
        BitPosition::B1
    } else if code == 2 {
        BitPosition::B2
    } else if code == 3 {
        BitPosition::B3
    } else if code == 4 {
        BitPosition::B4
    } else if code == 5 {
        BitPosition::B5
    } else if code == 6 {
        BitPosition::B6
    } else {
        BitPosition::B7
    }
}

/// The prefixed table: the low three bits pick the operand and the remaining
/// five pick the operation, eight single-byte operations followed by BIT,
/// RES and SET over each bit position.
pub open spec fn spec_decode_prefixed(byte: u8) -> Instruction {
    let target = spec_prefix_target(byte % 8);
    let group = byte / 8;
    if group == 0 {
        Instruction::RLC(target)
    } else if group == 1 {
        Instruction::RRC(target)
    } else if group == 2 {
        Instruction::RL(target)
    } else if group == 3 {
        Instruction::RR(target)
    } else if group == 4 {
        Instruction::SLA(target)
    } else if group == 5 {
        Instruction::SRA(target)
    } else if group == 6 {
        Instruction::SWAP(target)
    } else if group == 7 {
        Instruction::SRL(target)
    } else if group < 16 {
        Instruction::BIT(target, spec_bit_position((group - 8) as u8))
    } else if group < 24 {
        Instruction::RES(target, spec_bit_position((group - 16) as u8))
    } else {
        Instruction::SET(target, spec_bit_position((group - 24) as u8))
    }
}

/// The eleven unprefixed opcodes that decode to nothing.
pub open spec fn spec_is_illegal_opcode(byte: u8) -> bool {
    byte == 0xD3 || byte == 0xDB || byte == 0xDD || byte == 0xE3 || byte == 0xE4 || byte == 0xEB
        || byte == 0xEC || byte == 0xED || byte == 0xF4 || byte == 0xFC || byte == 0xFD
}

/// The register source an opcode's low three bits name for a byte load.
pub open spec fn spec_load_byte_source(code: u8) -> LoadByteSource {
    if code == 0 {
        LoadByteSource::B
    } else if code == 1 {
        LoadByteSource::C
    } else if code == 2 {
        LoadByteSource::D
    } else if code == 3 {
        LoadByteSource::E
    } else if code == 4 {
        LoadByteSource::H
    } else if code == 5 {
        LoadByteSource::L
    } else if code == 6 {
        LoadByteSource::HLI
    } else {
        LoadByteSource::A
    }
}

/// The register target an opcode's middle three bits name for a byte load.
pub open spec fn spec_load_byte_target(code: u8) -> LoadByteTarget {
    if code == 0 {
        LoadByteTarget::B
    } else if code == 1 {
        LoadByteTarget::C
    } else if code == 2 {
        LoadByteTarget::D
    } else if code == 3 {
        LoadByteTarget::E
    } else if code == 4 {
        LoadByteTarget::H
    } else if code == 5 {
        LoadByteTarget::L
    } else if code == 6 {
        LoadByteTarget::HLI
    } else {
        LoadByteTarget::A
    }
}

/// The register operand an opcode's low three bits name for arithmetic.
pub open spec fn spec_arithmetic_target(code: u8) -> ArithmeticTarget {
    if code == 0 {
        ArithmeticTarget::B
    } else if code == 1 {
        ArithmeticTarget::C
    } else if code == 2 {
        ArithmeticTarget::D
    } else if code == 3 {
        ArithmeticTarget::E
    } else if code == 4 {
        ArithmeticTarget::H
    } else if code == 5 {
        ArithmeticTarget::L
    } else if code == 6 {
        ArithmeticTarget::HLI
    } else {
        ArithmeticTarget::A
    }
}

/// The unprefixed table over every byte, with the eleven illegal slots and
/// the prefix byte mapped to NOP; `spec_decode_unprefixed` filters those out.
/// Bytes 0x40..0x7F are the register-to-register byte loads and 0x80..0xBF
/// the eight-operand arithmetic group; the rest is irregular and spelled out.
pub open spec fn spec_decode_unprefixed_total(byte: u8) -> Instruction {
    if 0x40 <= byte && byte < 0x80 {
        Instruction::LD(
            LoadType::Byte(
                spec_load_byte_target(((byte - 0x40) / 8) as u8),
                spec_load_byte_source(byte % 8),
            ),
        )
    } else if 0x80 <= byte && byte < 0xC0 {
        let target = spec_arithmetic_target(byte % 8);
        let group = (byte - 0x80) / 8;
        if group == 0 {
            Instruction::ADD(target)
        } else if group == 1 {
            Instruction::ADC(target)
        } else if group == 2 {
            Instruction::SUB(target)
        } else if group == 3 {
            Instruction::SBC(target)
        } else if group == 4 {
            Instruction::AND(target)
        } else if group == 5 {
            Instruction::XOR(target)
        } else if group == 6 {
            Instruction::OR(target)
        } else {
            Instruction::CP(target)
        }
    } else if byte == 0x00 {
        Instruction::NOP
    } else if byte == 0x01 {
        Instruction::LD(LoadType::Word(LoadWordTarget::BC))
    } else if byte == 0x11 {
        Instruction::LD(LoadType::Word(LoadWordTarget::DE))
    } else if byte == 0x21 {
        Instruction::LD(LoadType::Word(LoadWordTarget::HL))
    } else if byte == 0x31 {
        Instruction::LD(LoadType::Word(LoadWordTarget::SP))
    } else if byte == 0x02 {
        Instruction::LD(LoadType::IndirectFromA(Indirect::BC))
    } else if byte == 0x12 {
        Instruction::LD(LoadType::IndirectFromA(Indirect::DE))
    } else if byte == 0x22 {
        Instruction::LD(LoadType::IndirectFromA(Indirect::HLPlus))
    } else if byte == 0x32 {
        Instruction::LD(LoadType::IndirectFromA(Indirect::HLMinus))
    } else if byte == 0x03 {
        Instruction::INC(IncDecTarget::BC)
    } else if byte == 0x13 {
        Instruction::INC(IncDecTarget::DE)
    } else if byte == 0x23 {
        Instruction::INC(IncDecTarget::HL)
    } else if byte == 0x33 {
        Instruction::INC(IncDecTarget::SP)
    } else if byte == 0x04 {
        Instruction::INC(IncDecTarget::B)
    } else if byte == 0x0C {
        Instruction::INC(IncDecTarget::C)
    } else if byte == 0x14 {
        Instruction::INC(IncDecTarget::D)
    } else if byte == 0x1C {
        Instruction::INC(IncDecTarget::E)
    } else if byte == 0x24 {
        Instruction::INC(IncDecTarget::H)
    } else if byte == 0x2C {
        Instruction::INC(IncDecTarget::L)
    } else if byte == 0x34 {
        Instruction::INC(IncDecTarget::HLI)
    } else if byte == 0x3C {
        Instruction::INC(IncDecTarget::A)
    } else if byte == 0x05 {
        Instruction::DEC(IncDecTarget::B)
    } else if byte == 0x0D {
        Instruction::DEC(IncDecTarget::C)
    } else if byte == 0x15 {
        Instruction::DEC(IncDecTarget::D)
    } else if byte == 0x1D {
        Instruction::DEC(IncDecTarget::E)
    } else if byte == 0x25 {
        Instruction::DEC(IncDecTarget::H)
    } else if byte == 0x2D {
        Instruction::DEC(IncDecTarget::L)
    } else if byte == 0x35 {
        Instruction::DEC(IncDecTarget::HLI)
    } else if byte == 0x3D {
        Instruction::DEC(IncDecTarget::A)
    } else if byte == 0x06 {
        Instruction::LD(LoadType::Byte(LoadByteTarget::B, LoadByteSource::D8))
    } else if byte == 0x0E {
        Instruction::LD(LoadType::Byte(LoadByteTarget::C, LoadByteSource::D8))
    } else if byte == 0x16 {
        Instruction::LD(LoadType::Byte(LoadByteTarget::D, LoadByteSource::D8))
    } else if byte == 0x1E {
        Instruction::LD(LoadType::Byte(LoadByteTarget::E, LoadByteSource::D8))
    } else if byte == 0x26 {
        Instruction::LD(LoadType::Byte(LoadByteTarget::H, LoadByteSource::D8))
    } else if byte == 0x2E {
        Instruction::LD(LoadType::Byte(LoadByteTarget::L, LoadByteSource::D8))
    } else if byte == 0x36 {
        Instruction::LD(LoadType::Byte(LoadByteTarget::HLI, LoadByteSource::D8))
    } else if byte == 0x3E {
        Instruction::LD(LoadType::Byte(LoadByteTarget::A, LoadByteSource::D8))
    } else if byte == 0x07 {
        Instruction::RLCA
    } else if byte == 0x17 {
        Instruction::RLA
    } else if byte == 0x0F {
        Instruction::RRCA
    } else if byte == 0x1F {
        Instruction::RRA
    } else if byte == 0x08 {
        Instruction::LD(LoadType::IndirectFromSP)
    } else if byte == 0x09 {
        Instruction::ADDHL(ArithmeticHLTarget::BC)
    } else if byte == 0x19 {
        Instruction::ADDHL(ArithmeticHLTarget::DE)
    } else if byte == 0x29 {
        Instruction::ADDHL(ArithmeticHLTarget::HL)
    } else if byte == 0x39 {
        Instruction::ADDHL(ArithmeticHLTarget::SP)
    } else if byte == 0x0A {
        Instruction::LD(LoadType::AFromIndirect(Indirect::BC))
    } else if byte == 0x1A {
        Instruction::LD(LoadType::AFromIndirect(Indirect::DE))
    } else if byte == 0x2A {
        Instruction::LD(LoadType::AFromIndirect(Indirect::HLPlus))
    } else if byte == 0x3A {
        Instruction::LD(LoadType::AFromIndirect(Indirect::HLMinus))
    } else if byte == 0x0B {
        Instruction::DEC(IncDecTarget::BC)
    } else if byte == 0x1B {
        Instruction::DEC(IncDecTarget::DE)
    } else if byte == 0x2B {
        Instruction::DEC(IncDecTarget::HL)
    } else if byte == 0x3B {
        Instruction::DEC(IncDecTarget::SP)
    } else if byte == 0x10 {
        Instruction::STOP
    } else if byte == 0x18 {
        Instruction::JR(JumpTest::Always)
    } else if byte == 0x20 {
        Instruction::JR(JumpTest::NotZero)
    } else if byte == 0x28 {
        Instruction::JR(JumpTest::Zero)
    } else if byte == 0x30 {
        Instruction::JR(JumpTest::NotCarry)
    } else if byte == 0x38 {
        Instruction::JR(JumpTest::Carry)
    } else if byte == 0x27 {
        Instruction::DAA
    } else if byte == 0x2F {
        Instruction::CPL
    } else if byte == 0x37 {
        Instruction::SCF
    } else if byte == 0x3F {
        Instruction::CCF
    } else if byte == 0xC0 {
        Instruction::RET(JumpTest::NotZero)
    } else if byte == 0xC8 {
        Instruction::RET(JumpTest::Zero)
    } else if byte == 0xC9 {
        Instruction::RET(JumpTest::Always)
    } else if byte == 0xD0 {
        Instruction::RET(JumpTest::NotCarry)
    } else if byte == 0xD8 {
        Instruction::RET(JumpTest::Carry)
    } else if byte == 0xC1 {
        Instruction::POP(StackTarget::BC)
    } else if byte == 0xD1 {
        Instruction::POP(StackTarget::DE)
    } else if byte == 0xE1 {
        Instruction::POP(StackTarget::HL)
    } else if byte == 0xF1 {
        Instruction::POP(StackTarget::AF)
    } else if byte == 0xC2 {
        Instruction::JP(JumpTest::NotZero)
    } else if byte == 0xCA {
        Instruction::JP(JumpTest::Zero)
    } else if byte == 0xC3 {
        Instruction::JP(JumpTest::Always)
    } else if byte == 0xD2 {
        Instruction::JP(JumpTest::NotCarry)
    } else if byte == 0xDA {
        Instruction::JP(JumpTest::Carry)
    } else if byte == 0xC4 {
        Instruction::CALL(JumpTest::NotZero)
    } else if byte == 0xCC {
        Instruction::CALL(JumpTest::Zero)
    } else if byte == 0xCD {
        Instruction::CALL(JumpTest::Always)
    } else if byte == 0xD4 {
        Instruction::CALL(JumpTest::NotCarry)
    } else if byte == 0xDC {
        Instruction::CALL(JumpTest::Carry)
    } else if byte == 0xC5 {
        Instruction::PUSH(StackTarget::BC)
    } else if byte == 0xD5 {
        Instruction::PUSH(StackTarget::DE)
    } else if byte == 0xE5 {
        Instruction::PUSH(StackTarget::HL)
    } else if byte == 0xF5 {
        Instruction::PUSH(StackTarget::AF)
    } else if byte == 0xC6 {
        Instruction::ADD(ArithmeticTarget::D8)
    } else if byte == 0xCE {
        Instruction::ADC(ArithmeticTarget::D8)
    } else if byte == 0xD6 {
        Instruction::SUB(ArithmeticTarget::D8)
    } else if byte == 0xDE {
        Instruction::SBC(ArithmeticTarget::D8)
    } else if byte == 0xE6 {
        Instruction::AND(ArithmeticTarget::D8)
    } else if byte == 0xEE {
        Instruction::XOR(ArithmeticTarget::D8)
    } else if byte == 0xF6 {
        Instruction::OR(ArithmeticTarget::D8)
    } else if byte == 0xFE {
        Instruction::CP(ArithmeticTarget::D8)
    } else if byte == 0xC7 {
        Instruction::RST(RestartOffset::D00H)
    } else if byte == 0xCF {
        Instruction::RST(RestartOffset::D08H)
    } else if byte == 0xD7 {
        Instruction::RST(RestartOffset::D10H)
    } else if byte == 0xDF {
        Instruction::RST(RestartOffset::D18H)
    } else if byte == 0xE7 {
        Instruction::RST(RestartOffset::D20H)
    } else if byte == 0xEF {
        Instruction::RST(RestartOffset::D28H)
    } else if byte == 0xF7 {
        Instruction::RST(RestartOffset::D30H)
    } else if byte == 0xFF {
        Instruction::RST(RestartOffset::D38H)
    } else if byte == 0xD9 {
        Instruction::RETI
    } else if byte == 0xE0 {
        Instruction::LD(LoadType::ByteAddressFromA)
    } else if byte == 0xF0 {
        Instruction::LD(LoadType::AFromByteAddress)
    } else if byte == 0xE2 {
        Instruction::LD(LoadType::IndirectFromA(Indirect::LastByte))
    } else if byte == 0xF2 {
        Instruction::LD(LoadType::AFromIndirect(Indirect::LastByte))
    } else if byte == 0xE8 {
        Instruction::ADDSP
    } else if byte == 0xE9 {
        Instruction::JPHL
    } else if byte == 0xEA {
        Instruction::LD(LoadType::IndirectFromA(Indirect::Word))
    } else if byte == 0xFA {
        Instruction::LD(LoadType::AFromIndirect(Indirect::Word))
    } else if byte == 0xF3 {
        Instruction::DI
    } else if byte == 0xFB {
        Instruction::EI
    } else if byte == 0xF8 {
        Instruction::LD(LoadType::HLFromSPN)
    } else if byte == 0xF9 {
        Instruction::LD(LoadType::SPFromHL)
    } else {
        Instruction::NOP
    }
}

/// The unprefixed table: nothing for the eleven illegal opcodes and for the
/// prefix byte, and a defined instruction for every other byte.
pub open spec fn spec_decode_unprefixed(byte: u8) -> Option<Instruction> {
    if spec_is_illegal_opcode(byte) || byte == 0xCB {
        None
    } else {
        Some(spec_decode_unprefixed_total(byte))
    }
}

/// The whole decoder: the prefixed table when the preceding byte was the
/// prefix, otherwise the unprefixed one.
pub open spec fn spec_decode(byte: u8, prefixed: bool) -> Option<Instruction> {
    if prefixed {
        Some(spec_decode_prefixed(byte))
    } else {
        spec_decode_unprefixed(byte)
    }
}

impl Instruction {
    /// Decode one byte, prefixed or not.
    pub fn from_byte(byte: u8, prefixed: bool) -> (r: Option<Instruction>)
        ensures
            r == spec_decode(byte, prefixed),
    {
        if prefixed {
            Instruction::from_byte_prefixed(byte)
        } else {
            Instruction::from_byte_not_prefixed(byte)
        }
    }

    /// Decode a byte that followed the 0xCB prefix; every byte decodes.
    pub fn from_byte_prefixed(byte: u8) -> (r: Option<Instruction>)
        ensures
            r == Some(spec_decode_prefixed(byte)),
    {
        let target = Instruction::prefix_target(byte % 8);
        let group = byte / 8;
        if group == 0 {
            Some(Instruction::RLC(target))
        } else if group == 1 {
            Some(Instruction::RRC(target))
        } else if group == 2 {
            Some(Instruction::RL(target))
        } else if group == 3 {
            Some(Instruction::RR(target))
        } else if group == 4 {
            Some(Instruction::SLA(target))
        } else if group == 5 {
            Some(Instruction::SRA(target))
        } else if group == 6 {
            Some(Instruction::SWAP(target))
        } else if group == 7 {
            Some(Instruction::SRL(target))
        } else if group < 16 {
            Some(Instruction::BIT(target, Instruction::bit_position(group - 8)))
        } else if group < 24 {
            Some(Instruction::RES(target, Instruction::bit_position(group - 16)))
        } else {
            Some(Instruction::SET(target, Instruction::bit_position(group - 24)))
        }
    }

    fn prefix_target(code: u8) -> (r: PrefixTarget)
        ensures
            r == spec_prefix_target(code),
    {
        if code == 0 {
            PrefixTarget::B
        } else if code == 1 {
            PrefixTarget::C
        } else if code == 2 {
            PrefixTarget::D
        } else if code == 3 {
            PrefixTarget::E
        } else if code == 4 {
            PrefixTarget::H
        } else if code == 5 {
            PrefixTarget::L
        } else if code == 6 {
            PrefixTarget::HLI
        } else {
            PrefixTarget::A
        }
    }

    fn bit_position(code: u8) -> (r: BitPosition)
        ensures
            r == spec_bit_position(code),
    {
        if code == 0 {
            BitPosition::B0
        } else if code == 1 {
            BitPosition::B1
        } else if code == 2 {
            BitPosition::B2
        } else if code == 3 {
            BitPosition::B3
        } else if code == 4 {
            BitPosition::B4
        } else if code == 5 {
            BitPosition::B5
        } else if code == 6 {
            BitPosition::B6
        } else {
            BitPosition::B7
        }
    }

    fn load_byte_target(code: u8) -> (r: LoadByteTarget)
        ensures
            r == spec_load_byte_target(code),
    {
        if code == 0 {
            LoadByteTarget::B
        } else if code == 1 {
            LoadByteTarget::C
        } else if code == 2 {
            LoadByteTarget::D
        } else if code == 3 {
            LoadByteTarget::E
        } else if code == 4 {
            LoadByteTarget::H
        } else if code == 5 {
            LoadByteTarget::L
        } else if code == 6 {
            LoadByteTarget::HLI
        } else {
            LoadByteTarget::A
        }
    }

    fn load_byte_source(code: u8) -> (r: LoadByteSource)
        ensures
            r == spec_load_byte_source(code),
    {
        if code == 0 {
            LoadByteSource::B
        } else if code == 1 {
            LoadByteSource::C
        } else if code == 2 {
            LoadByteSource::D
        } else if code == 3 {
            LoadByteSource::E
        } else if code == 4 {
            LoadByteSource::H
        } else if code == 5 {
            LoadByteSource::L
        } else if code == 6 {
            LoadByteSource::HLI
        } else {
            LoadByteSource::A
        }
    }

    fn arithmetic_target(code: u8) -> (r: ArithmeticTarget)
        ensures
            r == spec_arithmetic_target(code),
    {
        if code == 0 {
            ArithmeticTarget::B
        } else if code == 1 {
            ArithmeticTarget::C
        } else if code == 2 {
            ArithmeticTarget::D
        } else if code == 3 {
            ArithmeticTarget::E
        } else if code == 4 {
            ArithmeticTarget::H
        } else if code == 5 {
            ArithmeticTarget::L
        } else if code == 6 {
            ArithmeticTarget::HLI
        } else {
            ArithmeticTarget::A
        }
    }

    /// Decode an unprefixed byte; exactly the eleven illegal opcodes and the
    /// prefix byte itself decode to nothing.
    pub fn from_byte_not_prefixed(byte: u8) -> (r: Option<Instruction>)
        ensures
            r == spec_decode_unprefixed(byte),
    {
        if byte == 0xD3 || byte == 0xDB || byte == 0xDD || byte == 0xE3 || byte == 0xE4
            || byte == 0xEB || byte == 0xEC || byte == 0xED || byte == 0xF4 || byte == 0xFC
            || byte == 0xFD || byte == 0xCB {
            return None;
        }
        if 0x40 <= byte && byte < 0x80 {
            return Some(
                Instruction::LD(
                    LoadType::Byte(
                        Instruction::load_byte_target((byte - 0x40) / 8),
                        Instruction::load_byte_source(byte % 8),
                    ),
                ),
            );
        }
        if 0x80 <= byte && byte < 0xC0 {
            let target = Instruction::arithmetic_target(byte % 8);
            let group = (byte - 0x80) / 8;
            return if group == 0 {
                Some(Instruction::ADD(target))
            } else if group == 1 {
                Some(Instruction::ADC(target))
            } else if group == 2 {
                Some(Instruction::SUB(target))
            } else if group == 3 {
                Some(Instruction::SBC(target))
            } else if group == 4 {
                Some(Instruction::AND(target))
            } else if group == 5 {
                Some(Instruction::XOR(target))
            } else if group == 6 {
                Some(Instruction::OR(target))
            } else {
                Some(Instruction::CP(target))
            };
        }
        let decoded = if byte == 0x00 {
            Instruction::NOP
        } else if byte == 0x01 {
            Instruction::LD(LoadType::Word(LoadWordTarget::BC))
        } else if byte == 0x11 {
            Instruction::LD(LoadType::Word(LoadWordTarget::DE))
        } else if byte == 0x21 {
            Instruction::LD(LoadType::Word(LoadWordTarget::HL))
        } else if byte == 0x31 {
            Instruction::LD(LoadType::Word(LoadWordTarget::SP))
        } else if byte == 0x02 {
            Instruction::LD(LoadType::IndirectFromA(Indirect::BC))
        } else if byte == 0x12 {
            Instruction::LD(LoadType::IndirectFromA(Indirect::DE))
        } else if byte == 0x22 {
            Instruction::LD(LoadType::IndirectFromA(Indirect::HLPlus))
        } else if byte == 0x32 {
            Instruction::LD(LoadType::IndirectFromA(Indirect::HLMinus))
        } else if byte == 0x03 {
            Instruction::INC(IncDecTarget::BC)
        } else if byte == 0x13 {
            Instruction::INC(IncDecTarget::DE)
        } else if byte == 0x23 {
            Instruction::INC(IncDecTarget::HL)
        } else if byte == 0x33 {
            Instruction::INC(IncDecTarget::SP)
        } else if byte == 0x04 {
            Instruction::INC(IncDecTarget::B)
        } else if byte == 0x0C {
            Instruction::INC(IncDecTarget::C)
        } else if byte == 0x14 {
            Instruction::INC(IncDecTarget::D)
        } else if byte == 0x1C {
            Instruction::INC(IncDecTarget::E)
        } else if byte == 0x24 {
            Instruction::INC(IncDecTarget::H)
        } else if byte == 0x2C {
            Instruction::INC(IncDecTarget::L)
        } else if byte == 0x34 {
            Instruction::INC(IncDecTarget::HLI)
        } else if byte == 0x3C {
            Instruction::INC(IncDecTarget::A)
        } else if byte == 0x05 {
            Instruction::DEC(IncDecTarget::B)
        } else if byte == 0x0D {
            Instruction::DEC(IncDecTarget::C)
        } else if byte == 0x15 {
            Instruction::DEC(IncDecTarget::D)
        } else if byte == 0x1D {
            Instruction::DEC(IncDecTarget::E)
        } else if byte == 0x25 {
            Instruction::DEC(IncDecTarget::H)
        } else if byte == 0x2D {
            Instruction::DEC(IncDecTarget::L)
        } else if byte == 0x35 {
            Instruction::DEC(IncDecTarget::HLI)
        } else if byte == 0x3D {
            Instruction::DEC(IncDecTarget::A)
        } else if byte == 0x06 {
            Instruction::LD(LoadType::Byte(LoadByteTarget::B, LoadByteSource::D8))
        } else if byte == 0x0E {
            Instruction::LD(LoadType::Byte(LoadByteTarget::C, LoadByteSource::D8))
        } else if byte == 0x16 {
            Instruction::LD(LoadType::Byte(LoadByteTarget::D, LoadByteSource::D8))
        } else if byte == 0x1E {
            Instruction::LD(LoadType::Byte(LoadByteTarget::E, LoadByteSource::D8))
        } else if byte == 0x26 {
            Instruction::LD(LoadType::Byte(LoadByteTarget::H, LoadByteSource::D8))
        } else if byte == 0x2E {
            Instruction::LD(LoadType::Byte(LoadByteTarget::L, LoadByteSource::D8))
        } else if byte == 0x36 {
            Instruction::LD(LoadType::Byte(LoadByteTarget::HLI, LoadByteSource::D8))
        } else if byte == 0x3E {
            Instruction::LD(LoadType::Byte(LoadByteTarget::A, LoadByteSource::D8))
        } else if byte == 0x07 {
            Instruction::RLCA
        } else if byte == 0x17 {
            Instruction::RLA
        } else if byte == 0x0F {
            Instruction::RRCA
        } else if byte == 0x1F {
            Instruction::RRA
        } else if byte == 0x08 {
            Instruction::LD(LoadType::IndirectFromSP)
        } else if byte == 0x09 {
            Instruction::ADDHL(ArithmeticHLTarget::BC)
        } else if byte == 0x19 {
            Instruction::ADDHL(ArithmeticHLTarget::DE)
        } else if byte == 0x29 {
            Instruction::ADDHL(ArithmeticHLTarget::HL)
        } else if byte == 0x39 {
            Instruction::ADDHL(ArithmeticHLTarget::SP)
        } else if byte == 0x0A {
            Instruction::LD(LoadType::AFromIndirect(Indirect::BC))
        } else if byte == 0x1A {
            Instruction::LD(LoadType::AFromIndirect(Indirect::DE))
        } else if byte == 0x2A {
            Instruction::LD(LoadType::AFromIndirect(Indirect::HLPlus))
        } else if byte == 0x3A {
            Instruction::LD(LoadType::AFromIndirect(Indirect::HLMinus))
        } else if byte == 0x0B {
            Instruction::DEC(IncDecTarget::BC)
        } else if byte == 0x1B {
            Instruction::DEC(IncDecTarget::DE)
        } else if byte == 0x2B {
            Instruction::DEC(IncDecTarget::HL)
        } else if byte == 0x3B {
            Instruction::DEC(IncDecTarget::SP)
        } else if byte == 0x10 {
            Instruction::STOP
        } else if byte == 0x18 {
            Instruction::JR(JumpTest::Always)
        } else if byte == 0x20 {
            Instruction::JR(JumpTest::NotZero)
        } else if byte == 0x28 {
            Instruction::JR(JumpTest::Zero)
        } else if byte == 0x30 {
            Instruction::JR(JumpTest::NotCarry)
        } else if byte == 0x38 {
            Instruction::JR(JumpTest::Carry)
        } else if byte == 0x27 {
            Instruction::DAA
        } else if byte == 0x2F {
            Instruction::CPL
        } else if byte == 0x37 {
            Instruction::SCF
        } else if byte == 0x3F {
            Instruction::CCF
        } else if byte == 0xC0 {
            Instruction::RET(JumpTest::NotZero)
        } else if byte == 0xC8 {
            Instruction::RET(JumpTest::Zero)
        } else if byte == 0xC9 {
            Instruction::RET(JumpTest::Always)
        } else if byte == 0xD0 {
            Instruction::RET(JumpTest::NotCarry)
        } else if byte == 0xD8 {
            Instruction::RET(JumpTest::Carry)
        } else if byte == 0xC1 {
            Instruction::POP(StackTarget::BC)
        } else if byte == 0xD1 {
            Instruction::POP(StackTarget::DE)
        } else if byte == 0xE1 {
            Instruction::POP(StackTarget::HL)
        } else if byte == 0xF1 {
            Instruction::POP(StackTarget::AF)
        } else if byte == 0xC2 {
            Instruction::JP(JumpTest::NotZero)
        } else if byte == 0xCA {
            Instruction::JP(JumpTest::Zero)
        } else if byte == 0xC3 {
            Instruction::JP(JumpTest::Always)
        } else if byte == 0xD2 {
            Instruction::JP(JumpTest::NotCarry)
        } else if byte == 0xDA {
            Instruction::JP(JumpTest::Carry)
        } else if byte == 0xC4 {
            Instruction::CALL(JumpTest::NotZero)
        } else if byte == 0xCC {
            Instruction::CALL(JumpTest::Zero)
        } else if byte == 0xCD {
            Instruction::CALL(JumpTest::Always)
        } else if byte == 0xD4 {
            Instruction::CALL(JumpTest::NotCarry)
        } else if byte == 0xDC {
            Instruction::CALL(JumpTest::Carry)
        } else if byte == 0xC5 {
            Instruction::PUSH(StackTarget::BC)
        } else if byte == 0xD5 {
            Instruction::PUSH(StackTarget::DE)
        } else if byte == 0xE5 {
            Instruction::PUSH(StackTarget::HL)
        } else if byte == 0xF5 {
            Instruction::PUSH(StackTarget::AF)
        } else if byte == 0xC6 {
            Instruction::ADD(ArithmeticTarget::D8)
        } else if byte == 0xCE {
            Instruction::ADC(ArithmeticTarget::D8)
        } else if byte == 0xD6 {
            Instruction::SUB(ArithmeticTarget::D8)
        } else if byte == 0xDE {
            Instruction::SBC(ArithmeticTarget::D8)
        } else if byte == 0xE6 {
            Instruction::AND(ArithmeticTarget::D8)
        } else if byte == 0xEE {
            Instruction::XOR(ArithmeticTarget::D8)
        } else if byte == 0xF6 {
            Instruction::OR(ArithmeticTarget::D8)
        } else if byte == 0xFE {
            Instruction::CP(ArithmeticTarget::D8)
        } else if byte == 0xC7 {
            Instruction::RST(RestartOffset::D00H)
        } else if byte == 0xCF {
            Instruction::RST(RestartOffset::D08H)
        } else if byte == 0xD7 {
            Instruction::RST(RestartOffset::D10H)
        } else if byte == 0xDF {
            Instruction::RST(RestartOffset::D18H)
        } else if byte == 0xE7 {
            Instruction::RST(RestartOffset::D20H)
        } else if byte == 0xEF {
            Instruction::RST(RestartOffset::D28H)
        } else if byte == 0xF7 {
            Instruction::RST(RestartOffset::D30H)
        } else if byte == 0xFF {
            Instruction::RST(RestartOffset::D38H)
        } else if byte == 0xD9 {
            Instruction::RETI
        } else if byte == 0xE0 {
            Instruction::LD(LoadType::ByteAddressFromA)
        } else if byte == 0xF0 {
            Instruction::LD(LoadType::AFromByteAddress)
        } else if byte == 0xE2 {
            Instruction::LD(LoadType::IndirectFromA(Indirect::LastByte))
        } else if byte == 0xF2 {
            Instruction::LD(LoadType::AFromIndirect(Indirect::LastByte))
        } else if byte == 0xE8 {
            Instruction::ADDSP
        } else if byte == 0xE9 {
            Instruction::JPHL
        } else if byte == 0xEA {
            Instruction::LD(LoadType::IndirectFromA(Indirect::Word))
        } else if byte == 0xFA {
            Instruction::LD(LoadType::AFromIndirect(Indirect::Word))
        } else if byte == 0xF3 {
            Instruction::DI
        } else if byte == 0xFB {
            Instruction::EI
        } else if byte == 0xF8 {
            Instruction::LD(LoadType::HLFromSPN)
        } else if byte == 0xF9 {
            Instruction::LD(LoadType::SPFromHL)
        } else {
            Instruction::NOP
        };
        Some(decoded)
    }
}

} // verus!
