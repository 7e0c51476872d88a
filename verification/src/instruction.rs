use vstd::prelude::*;

verus! {

/// A CPU register name, as it appears in a decoded operand.
/// `HlPlus` and `HlMinus` stand for the post-increment and
/// post-decrement forms used by the `LD (HL+),A` family.
#[derive(Clone, Copy, Debug)]
pub enum Register {
    A,
    B,
    C,
    D,
    E,
    H,
    L,
    Bc,
    De,
    Hl,
    Sp,
    HlPlus,
    HlMinus,
    Af,
}

/// What a memory dereference operand points through.
#[derive(Clone, Copy, Debug)]
pub enum DerefOperand {
    Register(Register),
    Address(u16),
    Ff00Offset(u8),
    Ff00PlusC,
}

/// A decoded instruction operand.
#[derive(Clone, Copy, Debug)]
pub enum Operand {
    Register(Register),
    I8(i8),
    U8(u8),
    U16(u16),
    Deref(DerefOperand),
    StackOffset(i8),
}

/// The condition of a conditional jump, call or return.
#[derive(Clone, Copy, Debug)]
pub enum ConditionType {
    NonZero,
    Zero,
    NotCarry,
    Carry,
}

/// A fully decoded opcode with its operands. Every byte pattern decodes
/// to some variant; the illegal encodings decode to `Unknown`.
#[derive(Clone, Copy, Debug)]
pub enum Opcode {
    Unknown { opcode: u8 },
    Nop,
    Stop,
    Halt,
    Ld8 { destination: Operand, source: Operand },
    Ld16 { destination: Operand, source: Operand },
    Jp { destination: Operand },
    JpCond { condition: ConditionType, destination: u16 },
    Jr { offset: i8 },
    JrCond { condition: ConditionType, offset: i8 },
    Call { destination: u16 },
    CallCond { condition: ConditionType, destination: u16 },
    Ret,
    RetCond { condition: ConditionType },
    Reti,
    Pop { register: Register },
    Push { register: Register },
    Rst { vector: u8 },
    Bit { bit: u8, destination: Operand },
    Res { bit: u8, destination: Operand },
    SetBit { bit: u8, destination: Operand },
    Add8 { operand: Operand },
    Add16 { register: Register, operand: Operand },
    Inc { operand: Operand },
    Inc16 { register: Register },
    Dec { operand: Operand },
    Dec16 { register: Register },
    Adc { operand: Operand },
    Sub { operand: Operand },
    Sbc { operand: Operand },
    And { operand: Operand },
    Xor { operand: Operand },
    Or { operand: Operand },
    Cp { operand: Operand },
    Cpl,
    Daa,
    Rlca,
    Rla,
    Rrca,
    Rra,
    Rlc { operand: Operand },
    Rl { operand: Operand },
    Rrc { operand: Operand },
    Rr { operand: Operand },
    Sla { operand: Operand },
    Swap { operand: Operand },
    Sra { operand: Operand },
    Srl { operand: Operand },
    Scf,
    Ccf,
    Di,
    Ei,
}

/// The little-endian 16-bit immediate assembled from two bytes.
pub open spec fn spec_make_u16(low: u8, high: u8) -> u16 {
    (low + high * 256) as u16
}

pub fn make_u16(low: u8, high: u8) -> (r: u16)
    ensures
        r == spec_make_u16(low, high),
{
    low as u16 + high as u16 * 256
}

/// The signed reading of an immediate byte (two's complement).
pub open spec fn spec_make_i8(v: u8) -> i8 {
    if v < 128 {
        v as i8
    } else {
        (v - 256) as i8
    }
}

pub fn make_i8(v: u8) -> (r: i8)
    ensures
        r == spec_make_i8(v),
{
    if v < 128 {
        v as i8
    } else {
        proof {
            assert(-128 <= v - 256 < 0);
        }
        (v as i16 - 256) as i8
    }
}

/// The unsigned byte whose signed reading is `d`; the inverse of
/// `spec_make_i8`.
pub open spec fn spec_u8_of_i8(d: i8) -> u8 {
    if d >= 0 {
        d as u8
    } else {
        (d + 256) as u8
    }
}

pub fn u8_of_i8(d: i8) -> (r: u8)
    ensures
        r == spec_u8_of_i8(d),
        spec_make_i8(r) == d,
{
    if d >= 0 {
        d as u8
    } else {
        (d as i16 + 256) as u8
    }
}

/// The 8-bit operand in table order: B, C, D, E, H, L, (HL), A.
pub open spec fn spec_r8_operand(i: u8) -> Operand {
    if i == 0 {
        Operand::Register(Register::B)
    } else if i == 1 {
        Operand::Register(Register::C)
    } else if i == 2 {
        Operand::Register(Register::D)
    } else if i == 3 {
        Operand::Register(Register::E)
    } else if i == 4 {
        Operand::Register(Register::H)
    } else if i == 5 {
        Operand::Register(Register::L)
    } else if i == 6 {
        Operand::Deref(DerefOperand::Register(Register::Hl))
    } else {
        Operand::Register(Register::A)
    }
}

fn r8_operand(i: u8) -> (r: Operand)
    ensures
        r == spec_r8_operand(i),
{
    if i == 0 {
        Operand::Register(Register::B)
    } else if i == 1 {
        Operand::Register(Register::C)
    } else if i == 2 {
        Operand::Register(Register::D)
    } else if i == 3 {
        Operand::Register(Register::E)
    } else if i == 4 {
        Operand::Register(Register::H)
    } else if i == 5 {
        Operand::Register(Register::L)
    } else if i == 6 {
        Operand::Deref(DerefOperand::Register(Register::Hl))
    } else {
        Operand::Register(Register::A)
    }
}

/// The position of an 8-bit operand in the instruction tables, if it
/// has one: B=0, C=1, D=2, E=3, H=4, L=5, (HL)=6, A=7.
pub open spec fn spec_r8_index(x: Operand) -> Option<u8> {
    match x {
        Operand::Register(Register::B) => Option::Some(0u8),
        Operand::Register(Register::C) => Option::Some(1u8),
        Operand::Register(Register::D) => Option::Some(2u8),
        Operand::Register(Register::E) => Option::Some(3u8),
        Operand::Register(Register::H) => Option::Some(4u8),
        Operand::Register(Register::L) => Option::Some(5u8),
        Operand::Deref(DerefOperand::Register(Register::Hl)) => Option::Some(6u8),
        Operand::Register(Register::A) => Option::Some(7u8),
        _ => Option::None,
    }
}

fn r8_index(x: Operand) -> (r: Option<u8>)
    ensures
        r == spec_r8_index(x),
{
    match x {
        Operand::Register(Register::B) => Option::Some(0u8),
        Operand::Register(Register::C) => Option::Some(1u8),
        Operand::Register(Register::D) => Option::Some(2u8),
        Operand::Register(Register::E) => Option::Some(3u8),
        Operand::Register(Register::H) => Option::Some(4u8),
        Operand::Register(Register::L) => Option::Some(5u8),
        Operand::Deref(DerefOperand::Register(Register::Hl)) => Option::Some(6u8),
        Operand::Register(Register::A) => Option::Some(7u8),
        _ => Option::None,
    }
}

/// The 8-bit arithmetic opcode in table order:
/// ADD, ADC, SUB, SBC, AND, XOR, OR, CP.
pub open spec fn spec_alu_opcode(k: u8, x: Operand) -> Opcode {
    if k == 0 {
        Opcode::Add8 { operand: x }
    } else if k == 1 {
        Opcode::Adc { operand: x }
    } else if k == 2 {
        Opcode::Sub { operand: x }
    } else if k == 3 {
        Opcode::Sbc { operand: x }
    } else if k == 4 {
        Opcode::And { operand: x }
    } else if k == 5 {
        Opcode::Xor { operand: x }
    } else if k == 6 {
        Opcode::Or { operand: x }
    } else {
        Opcode::Cp { operand: x }
    }
}

fn alu_opcode(k: u8, x: Operand) -> (r: Opcode)
    ensures
        r == spec_alu_opcode(k, x),
{
    if k == 0 {
        Opcode::Add8 { operand: x }
    } else if k == 1 {
        Opcode::Adc { operand: x }
    } else if k == 2 {
        Opcode::Sub { operand: x }
    } else if k == 3 {
        Opcode::Sbc { operand: x }
    } else if k == 4 {
        Opcode::And { operand: x }
    } else if k == 5 {
        Opcode::Xor { operand: x }
    } else if k == 6 {
        Opcode::Or { operand: x }
    } else {
        Opcode::Cp { operand: x }
    }
}

/// The secondary table selected by the 0xCB prefix byte.
pub open spec fn spec_decode_cb(b1: u8) -> Opcode {
    let x = spec_r8_operand(b1 % 8);
    let n = ((b1 / 8) % 8) as u8;
    if b1 / 64 == 0 {
        if n == 0 {
            Opcode::Rlc { operand: x }
        } else if n == 1 {
            Opcode::Rrc { operand: x }
        } else if n == 2 {
            Opcode::Rl { operand: x }
        } else if n == 3 {
            Opcode::Rr { operand: x }
        } else if n == 4 {
            Opcode::Sla { operand: x }
        } else if n == 5 {
            Opcode::Sra { operand: x }
        } else if n == 6 {
            Opcode::Swap { operand: x }
        } else {
            Opcode::Srl { operand: x }
        }
    } else if b1 / 64 == 1 {
        Opcode::Bit { bit: n, destination: x }
    } else if b1 / 64 == 2 {
        Opcode::Res { bit: n, destination: x }
    } else {
        Opcode::SetBit { bit: n, destination: x }
    }
}

fn decode_cb(b1: u8) -> (r: Opcode)
    ensures
        r == spec_decode_cb(b1),
{
    let x = r8_operand(b1 % 8);
    let n: u8 = (b1 / 8) % 8;
    if b1 / 64 == 0 {
        if n == 0 {
            Opcode::Rlc { operand: x }
        } else if n == 1 {
            Opcode::Rrc { operand: x }
        } else if n == 2 {
            Opcode::Rl { operand: x }
        } else if n == 3 {
            Opcode::Rr { operand: x }
        } else if n == 4 {
            Opcode::Sla { operand: x }
        } else if n == 5 {
            Opcode::Sra { operand: x }
        } else if n == 6 {
            Opcode::Swap { operand: x }
        } else {
            Opcode::Srl { operand: x }
        }
    } else if b1 / 64 == 1 {
        Opcode::Bit { bit: n, destination: x }
    } else if b1 / 64 == 2 {
        Opcode::Res { bit: n, destination: x }
    } else {
        Opcode::SetBit { bit: n, destination: x }
    }
}

/// The instruction table: what the byte `b0` (with immediate bytes
/// `b1` and `b2` following it) decodes to. Total over every byte
/// pattern; the eleven illegal encodings map to `Unknown`.
pub open spec fn spec_decode(b0: u8, b1: u8, b2: u8) -> Opcode {
    if b0 / 64 == 1 {
        if b0 == 0x76 {
            Opcode::Halt
        } else {
            Opcode::Ld8 {
                destination: spec_r8_operand((b0 / 8) % 8),
                source: spec_r8_operand(b0 % 8),
            }
        }
    } else if b0 / 64 == 2 {
        spec_alu_opcode((b0 / 8) % 8, spec_r8_operand(b0 % 8))
    } else {
        match b0 {
            0x00 => Opcode::Nop,
            0x01 => Opcode::Ld16 { destination: Operand::Register(Register::Bc), source: Operand::U16(spec_make_u16(b1, b2)) },
            0x02 => Opcode::Ld8 { destination: Operand::Deref(DerefOperand::Register(Register::Bc)), source: Operand::Register(Register::A) },
            0x03 => Opcode::Inc16 { register: Register::Bc },
            0x04 => Opcode::Inc { operand: Operand::Register(Register::B) },
            0x05 => Opcode::Dec { operand: Operand::Register(Register::B) },
            0x06 => Opcode::Ld8 { destination: Operand::Register(Register::B), source: Operand::U8(b1) },
            0x07 => Opcode::Rlca,
            0x08 => Opcode::Ld16 { destination: Operand::Deref(DerefOperand::Address(spec_make_u16(b1, b2))), source: Operand::Register(Register::Sp) },
            0x09 => Opcode::Add16 { register: Register::Hl, operand: Operand::Register(Register::Bc) },
            0x0a => Opcode::Ld8 { destination: Operand::Register(Register::A), source: Operand::Deref(DerefOperand::Register(Register::Bc)) },
            0x0b => Opcode::Dec16 { register: Register::Bc },
            0x0c => Opcode::Inc { operand: Operand::Register(Register::C) },
            0x0d => Opcode::Dec { operand: Operand::Register(Register::C) },
            0x0e => Opcode::Ld8 { destination: Operand::Register(Register::C), source: Operand::U8(b1) },
            0x0f => Opcode::Rrca,
            0x10 => Opcode::Stop,
            0x11 => Opcode::Ld16 { destination: Operand::Register(Register::De), source: Operand::U16(spec_make_u16(b1, b2)) },
            0x12 => Opcode::Ld8 { destination: Operand::Deref(DerefOperand::Register(Register::De)), source: Operand::Register(Register::A) },
            0x13 => Opcode::Inc16 { register: Register::De },
            0x14 => Opcode::Inc { operand: Operand::Register(Register::D) },
            0x15 => Opcode::Dec { operand: Operand::Register(Register::D) },
            0x16 => Opcode::Ld8 { destination: Operand::Register(Register::D), source: Operand::U8(b1) },
            0x17 => Opcode::Rla,
            0x18 => Opcode::Jr { offset: spec_make_i8(b1) },
            0x19 => Opcode::Add16 { register: Register::Hl, operand: Operand::Register(Register::De) },
            0x1a => Opcode::Ld8 { destination: Operand::Register(Register::A), source: Operand::Deref(DerefOperand::Register(Register::De)) },
            0x1b => Opcode::Dec16 { register: Register::De },
            0x1c => Opcode::Inc { operand: Operand::Register(Register::E) },
            0x1d => Opcode::Dec { operand: Operand::Register(Register::E) },
            0x1e => Opcode::Ld8 { destination: Operand::Register(Register::E), source: Operand::U8(b1) },
            0x1f => Opcode::Rra,
            0x20 => Opcode::JrCond { condition: ConditionType::NonZero, offset: spec_make_i8(b1) },
            0x21 => Opcode::Ld16 { destination: Operand::Register(Register::Hl), source: Operand::U16(spec_make_u16(b1, b2)) },
            0x22 => Opcode::Ld8 { destination: Operand::Deref(DerefOperand::Register(Register::HlPlus)), source: Operand::Register(Register::A) },
            0x23 => Opcode::Inc16 { register: Register::Hl },
            0x24 => Opcode::Inc { operand: Operand::Register(Register::H) },
            0x25 => Opcode::Dec { operand: Operand::Register(Register::H) },
            0x26 => Opcode::Ld8 { destination: Operand::Register(Register::H), source: Operand::U8(b1) },
            0x27 => Opcode::Daa,
            0x28 => Opcode::JrCond { condition: ConditionType::Zero, offset: spec_make_i8(b1) },
            0x29 => Opcode::Add16 { register: Register::Hl, operand: Operand::Register(Register::Hl) },
            0x2a => Opcode::Ld8 { destination: Operand::Register(Register::A), source: Operand::Deref(DerefOperand::Register(Register::HlPlus)) },
            0x2b => Opcode::Dec16 { register: Register::Hl },
            0x2c => Opcode::Inc { operand: Operand::Register(Register::L) },
            0x2d => Opcode::Dec { operand: Operand::Register(Register::L) },
            0x2e => Opcode::Ld8 { destination: Operand::Register(Register::L), source: Operand::U8(b1) },
            0x2f => Opcode::Cpl,
            0x30 => Opcode::JrCond { condition: ConditionType::NotCarry, offset: spec_make_i8(b1) },
            0x31 => Opcode::Ld16 { destination: Operand::Register(Register::Sp), source: Operand::U16(spec_make_u16(b1, b2)) },
            0x32 => Opcode::Ld8 { destination: Operand::Deref(DerefOperand::Register(Register::HlMinus)), source: Operand::Register(Register::A) },
            0x33 => Opcode::Inc16 { register: Register::Sp },
            0x34 => Opcode::Inc { operand: Operand::Deref(DerefOperand::Register(Register::Hl)) },
            0x35 => Opcode::Dec { operand: Operand::Deref(DerefOperand::Register(Register::Hl)) },
            0x36 => Opcode::Ld8 { destination: Operand::Deref(DerefOperand::Register(Register::Hl)), source: Operand::U8(b1) },
            0x37 => Opcode::Scf,
            0x38 => Opcode::JrCond { condition: ConditionType::Carry, offset: spec_make_i8(b1) },
            0x39 => Opcode::Add16 { register: Register::Hl, operand: Operand::Register(Register::Sp) },
            0x3a => Opcode::Ld8 { destination: Operand::Register(Register::A), source: Operand::Deref(DerefOperand::Register(Register::HlMinus)) },
            0x3b => Opcode::Dec16 { register: Register::Sp },
            0x3c => Opcode::Inc { operand: Operand::Register(Register::A) },
            0x3d => Opcode::Dec { operand: Operand::Register(Register::A) },
            0x3e => Opcode::Ld8 { destination: Operand::Register(Register::A), source: Operand::U8(b1) },
            0x3f => Opcode::Ccf,
            0xc0 => Opcode::RetCond { condition: ConditionType::NonZero },
            0xc1 => Opcode::Pop { register: Register::Bc },
            0xc2 => Opcode::JpCond { condition: ConditionType::NonZero, destination: spec_make_u16(b1, b2) },
            0xc3 => Opcode::Jp { destination: Operand::U16(spec_make_u16(b1, b2)) },
            0xc4 => Opcode::CallCond { condition: ConditionType::NonZero, destination: spec_make_u16(b1, b2) },
            0xc5 => Opcode::Push { register: Register::Bc },
            0xc6 => Opcode::Add8 { operand: Operand::U8(b1) },
            0xc7 => Opcode::Rst { vector: 0x0 },
            0xc8 => Opcode::RetCond { condition: ConditionType::Zero },
            0xc9 => Opcode::Ret,
            0xca => Opcode::JpCond { condition: ConditionType::Zero, destination: spec_make_u16(b1, b2) },
            0xcb => spec_decode_cb(b1),
            0xcc => Opcode::CallCond { condition: ConditionType::Zero, destination: spec_make_u16(b1, b2) },
            0xcd => Opcode::Call { destination: spec_make_u16(b1, b2) },
            0xce => Opcode::Adc { operand: Operand::U8(b1) },
            0xcf => Opcode::Rst { vector: 0x8 },
            0xd0 => Opcode::RetCond { condition: ConditionType::NotCarry },
            0xd1 => Opcode::Pop { register: Register::De },
            0xd2 => Opcode::JpCond { condition: ConditionType::NotCarry, destination: spec_make_u16(b1, b2) },
            0xd3 => Opcode::Unknown { opcode: 0xd3 },
            0xd4 => Opcode::CallCond { condition: ConditionType::NotCarry, destination: spec_make_u16(b1, b2) },
            0xd5 => Opcode::Push { register: Register::De },
            0xd6 => Opcode::Sub { operand: Operand::U8(b1) },
            0xd7 => Opcode::Rst { vector: 0x10 },
            0xd8 => Opcode::RetCond { condition: ConditionType::Carry },
            0xd9 => Opcode::Reti,
            0xda => Opcode::JpCond { condition: ConditionType::Carry, destination: spec_make_u16(b1, b2) },
            0xdb => Opcode::Unknown { opcode: 0xdb },
            0xdc => Opcode::CallCond { condition: ConditionType::Carry, destination: spec_make_u16(b1, b2) },
            0xdd => Opcode::Unknown { opcode: 0xdd },
            0xde => Opcode::Sbc { operand: Operand::U8(b1) },
            0xdf => Opcode::Rst { vector: 0x18 },
            0xe0 => Opcode::Ld8 { destination: Operand::Deref(DerefOperand::Ff00Offset(b1)), source: Operand::Register(Register::A) },
            0xe1 => Opcode::Pop { register: Register::Hl },
            0xe2 => Opcode::Ld8 { destination: Operand::Deref(DerefOperand::Ff00PlusC), source: Operand::Register(Register::A) },
            0xe3 => Opcode::Unknown { opcode: 0xe3 },
            0xe4 => Opcode::Unknown { opcode: 0xe4 },
            0xe5 => Opcode::Push { register: Register::Hl },
            0xe6 => Opcode::And { operand: Operand::U8(b1) },
            0xe7 => Opcode::Rst { vector: 0x20 },
            0xe8 => Opcode::Add16 { register: Register::Sp, operand: Operand::I8(spec_make_i8(b1)) },
            0xe9 => Opcode::Jp { destination: Operand::Register(Register::Hl) },
            0xea => Opcode::Ld8 { destination: Operand::Deref(DerefOperand::Address(spec_make_u16(b1, b2))), source: Operand::Register(Register::A) },
            0xeb => Opcode::Unknown { opcode: 0xeb },
            0xec => Opcode::Unknown { opcode: 0xec },
            0xed => Opcode::Unknown { opcode: 0xed },
            0xee => Opcode::Xor { operand: Operand::U8(b1) },
            0xef => Opcode::Rst { vector: 0x28 },
            0xf0 => Opcode::Ld8 { destination: Operand::Register(Register::A), source: Operand::Deref(DerefOperand::Ff00Offset(b1)) },
            0xf1 => Opcode::Pop { register: Register::Af },
            0xf2 => Opcode::Ld8 { destination: Operand::Register(Register::A), source: Operand::Deref(DerefOperand::Ff00PlusC) },
            0xf3 => Opcode::Di,
            0xf4 => Opcode::Unknown { opcode: 0xf4 },
            0xf5 => Opcode::Push { register: Register::Af },
            0xf6 => Opcode::Or { operand: Operand::U8(b1) },
            0xf7 => Opcode::Rst { vector: 0x30 },
            0xf8 => Opcode::Ld16 { destination: Operand::Register(Register::Hl), source: Operand::StackOffset(spec_make_i8(b1)) },
            0xf9 => Opcode::Ld16 { destination: Operand::Register(Register::Sp), source: Operand::Register(Register::Hl) },
            0xfa => Opcode::Ld8 { destination: Operand::Register(Register::A), source: Operand::Deref(DerefOperand::Address(spec_make_u16(b1, b2))) },
            0xfb => Opcode::Ei,
            0xfc => Opcode::Unknown { opcode: 0xfc },
            0xfd => Opcode::Unknown { opcode: 0xfd },
            0xfe => Opcode::Cp { operand: Operand::U8(b1) },
            0xff => Opcode::Rst { vector: 0x38 },
            _ => Opcode::Unknown { opcode: b0 },
        }
    }
}

/// Decodes the instruction starting with byte `b0`; `b1` and `b2` are
/// the two bytes after it, which only multi-byte instructions consume.
pub fn decode(b0: u8, b1: u8, b2: u8) -> (r: Opcode)
    ensures
        r == spec_decode(b0, b1, b2),
{
    if b0 / 64 == 1 {
        if b0 == 0x76 {
            Opcode::Halt
        } else {
            Opcode::Ld8 {
                destination: r8_operand((b0 / 8) % 8),
                source: r8_operand(b0 % 8),
            }
        }
    } else if b0 / 64 == 2 {
        alu_opcode((b0 / 8) % 8, r8_operand(b0 % 8))
    } else {
        match b0 {
            0x00 => Opcode::Nop,
            0x01 => Opcode::Ld16 { destination: Operand::Register(Register::Bc), source: Operand::U16(make_u16(b1, b2)) },
            0x02 => Opcode::Ld8 { destination: Operand::Deref(DerefOperand::Register(Register::Bc)), source: Operand::Register(Register::A) },
            0x03 => Opcode::Inc16 { register: Register::Bc },
            0x04 => Opcode::Inc { operand: Operand::Register(Register::B) },
            0x05 => Opcode::Dec { operand: Operand::Register(Register::B) },
            0x06 => Opcode::Ld8 { destination: Operand::Register(Register::B), source: Operand::U8(b1) },
            0x07 => Opcode::Rlca,
            0x08 => Opcode::Ld16 { destination: Operand::Deref(DerefOperand::Address(make_u16(b1, b2))), source: Operand::Register(Register::Sp) },
            0x09 => Opcode::Add16 { register: Register::Hl, operand: Operand::Register(Register::Bc) },
            0x0a => Opcode::Ld8 { destination: Operand::Register(Register::A), source: Operand::Deref(DerefOperand::Register(Register::Bc)) },
            0x0b => Opcode::Dec16 { register: Register::Bc },
            0x0c => Opcode::Inc { operand: Operand::Register(Register::C) },
            0x0d => Opcode::Dec { operand: Operand::Register(Register::C) },
            0x0e => Opcode::Ld8 { destination: Operand::Register(Register::C), source: Operand::U8(b1) },
            0x0f => Opcode::Rrca,
            0x10 => Opcode::Stop,
            0x11 => Opcode::Ld16 { destination: Operand::Register(Register::De), source: Operand::U16(make_u16(b1, b2)) },
            0x12 => Opcode::Ld8 { destination: Operand::Deref(DerefOperand::Register(Register::De)), source: Operand::Register(Register::A) },
            0x13 => Opcode::Inc16 { register: Register::De },
            0x14 => Opcode::Inc { operand: Operand::Register(Register::D) },
            0x15 => Opcode::Dec { operand: Operand::Register(Register::D) },
            0x16 => Opcode::Ld8 { destination: Operand::Register(Register::D), source: Operand::U8(b1) },
            0x17 => Opcode::Rla,
            0x18 => Opcode::Jr { offset: make_i8(b1) },
            0x19 => Opcode::Add16 { register: Register::Hl, operand: Operand::Register(Register::De) },
            0x1a => Opcode::Ld8 { destination: Operand::Register(Register::A), source: Operand::Deref(DerefOperand::Register(Register::De)) },
            0x1b => Opcode::Dec16 { register: Register::De },
            0x1c => Opcode::Inc { operand: Operand::Register(Register::E) },
            0x1d => Opcode::Dec { operand: Operand::Register(Register::E) },
            0x1e => Opcode::Ld8 { destination: Operand::Register(Register::E), source: Operand::U8(b1) },
            0x1f => Opcode::Rra,
            0x20 => Opcode::JrCond { condition: ConditionType::NonZero, offset: make_i8(b1) },
            0x21 => Opcode::Ld16 { destination: Operand::Register(Register::Hl), source: Operand::U16(make_u16(b1, b2)) },
            0x22 => Opcode::Ld8 { destination: Operand::Deref(DerefOperand::Register(Register::HlPlus)), source: Operand::Register(Register::A) },
            0x23 => Opcode::Inc16 { register: Register::Hl },
            0x24 => Opcode::Inc { operand: Operand::Register(Register::H) },
            0x25 => Opcode::Dec { operand: Operand::Register(Register::H) },
            0x26 => Opcode::Ld8 { destination: Operand::Register(Register::H), source: Operand::U8(b1) },
            0x27 => Opcode::Daa,
            0x28 => Opcode::JrCond { condition: ConditionType::Zero, offset: make_i8(b1) },
            0x29 => Opcode::Add16 { register: Register::Hl, operand: Operand::Register(Register::Hl) },
            0x2a => Opcode::Ld8 { destination: Operand::Register(Register::A), source: Operand::Deref(DerefOperand::Register(Register::HlPlus)) },
            0x2b => Opcode::Dec16 { register: Register::Hl },
            0x2c => Opcode::Inc { operand: Operand::Register(Register::L) },
            0x2d => Opcode::Dec { operand: Operand::Register(Register::L) },
            0x2e => Opcode::Ld8 { destination: Operand::Register(Register::L), source: Operand::U8(b1) },
            0x2f => Opcode::Cpl,
            0x30 => Opcode::JrCond { condition: ConditionType::NotCarry, offset: make_i8(b1) },
            0x31 => Opcode::Ld16 { destination: Operand::Register(Register::Sp), source: Operand::U16(make_u16(b1, b2)) },
            0x32 => Opcode::Ld8 { destination: Operand::Deref(DerefOperand::Register(Register::HlMinus)), source: Operand::Register(Register::A) },
            0x33 => Opcode::Inc16 { register: Register::Sp },
            0x34 => Opcode::Inc { operand: Operand::Deref(DerefOperand::Register(Register::Hl)) },
            0x35 => Opcode::Dec { operand: Operand::Deref(DerefOperand::Register(Register::Hl)) },
            0x36 => Opcode::Ld8 { destination: Operand::Deref(DerefOperand::Register(Register::Hl)), source: Operand::U8(b1) },
            0x37 => Opcode::Scf,
            0x38 => Opcode::JrCond { condition: ConditionType::Carry, offset: make_i8(b1) },
            0x39 => Opcode::Add16 { register: Register::Hl, operand: Operand::Register(Register::Sp) },
            0x3a => Opcode::Ld8 { destination: Operand::Register(Register::A), source: Operand::Deref(DerefOperand::Register(Register::HlMinus)) },
            0x3b => Opcode::Dec16 { register: Register::Sp },
            0x3c => Opcode::Inc { operand: Operand::Register(Register::A) },
            0x3d => Opcode::Dec { operand: Operand::Register(Register::A) },
            0x3e => Opcode::Ld8 { destination: Operand::Register(Register::A), source: Operand::U8(b1) },
            0x3f => Opcode::Ccf,
            0xc0 => Opcode::RetCond { condition: ConditionType::NonZero },
            0xc1 => Opcode::Pop { register: Register::Bc },
            0xc2 => Opcode::JpCond { condition: ConditionType::NonZero, destination: make_u16(b1, b2) },
            0xc3 => Opcode::Jp { destination: Operand::U16(make_u16(b1, b2)) },
            0xc4 => Opcode::CallCond { condition: ConditionType::NonZero, destination: make_u16(b1, b2) },
            0xc5 => Opcode::Push { register: Register::Bc },
            0xc6 => Opcode::Add8 { operand: Operand::U8(b1) },
            0xc7 => Opcode::Rst { vector: 0x0 },
            0xc8 => Opcode::RetCond { condition: ConditionType::Zero },
            0xc9 => Opcode::Ret,
            0xca => Opcode::JpCond { condition: ConditionType::Zero, destination: make_u16(b1, b2) },
            0xcb => decode_cb(b1),
            0xcc => Opcode::CallCond { condition: ConditionType::Zero, destination: make_u16(b1, b2) },
            0xcd => Opcode::Call { destination: make_u16(b1, b2) },
            0xce => Opcode::Adc { operand: Operand::U8(b1) },
            0xcf => Opcode::Rst { vector: 0x8 },
            0xd0 => Opcode::RetCond { condition: ConditionType::NotCarry },
            0xd1 => Opcode::Pop { register: Register::De },
            0xd2 => Opcode::JpCond { condition: ConditionType::NotCarry, destination: make_u16(b1, b2) },
            0xd3 => Opcode::Unknown { opcode: 0xd3 },
            0xd4 => Opcode::CallCond { condition: ConditionType::NotCarry, destination: make_u16(b1, b2) },
            0xd5 => Opcode::Push { register: Register::De },
            0xd6 => Opcode::Sub { operand: Operand::U8(b1) },
            0xd7 => Opcode::Rst { vector: 0x10 },
            0xd8 => Opcode::RetCond { condition: ConditionType::Carry },
            0xd9 => Opcode::Reti,
            0xda => Opcode::JpCond { condition: ConditionType::Carry, destination: make_u16(b1, b2) },
            0xdb => Opcode::Unknown { opcode: 0xdb },
            0xdc => Opcode::CallCond { condition: ConditionType::Carry, destination: make_u16(b1, b2) },
            0xdd => Opcode::Unknown { opcode: 0xdd },
            0xde => Opcode::Sbc { operand: Operand::U8(b1) },
            0xdf => Opcode::Rst { vector: 0x18 },
            0xe0 => Opcode::Ld8 { destination: Operand::Deref(DerefOperand::Ff00Offset(b1)), source: Operand::Register(Register::A) },
            0xe1 => Opcode::Pop { register: Register::Hl },
            0xe2 => Opcode::Ld8 { destination: Operand::Deref(DerefOperand::Ff00PlusC), source: Operand::Register(Register::A) },
            0xe3 => Opcode::Unknown { opcode: 0xe3 },
            0xe4 => Opcode::Unknown { opcode: 0xe4 },
            0xe5 => Opcode::Push { register: Register::Hl },
            0xe6 => Opcode::And { operand: Operand::U8(b1) },
            0xe7 => Opcode::Rst { vector: 0x20 },
            0xe8 => Opcode::Add16 { register: Register::Sp, operand: Operand::I8(make_i8(b1)) },
            0xe9 => Opcode::Jp { destination: Operand::Register(Register::Hl) },
            0xea => Opcode::Ld8 { destination: Operand::Deref(DerefOperand::Address(make_u16(b1, b2))), source: Operand::Register(Register::A) },
            0xeb => Opcode::Unknown { opcode: 0xeb },
            0xec => Opcode::Unknown { opcode: 0xec },
            0xed => Opcode::Unknown { opcode: 0xed },
            0xee => Opcode::Xor { operand: Operand::U8(b1) },
            0xef => Opcode::Rst { vector: 0x28 },
            0xf0 => Opcode::Ld8 { destination: Operand::Register(Register::A), source: Operand::Deref(DerefOperand::Ff00Offset(b1)) },
            0xf1 => Opcode::Pop { register: Register::Af },
            0xf2 => Opcode::Ld8 { destination: Operand::Register(Register::A), source: Operand::Deref(DerefOperand::Ff00PlusC) },
            0xf3 => Opcode::Di,
            0xf4 => Opcode::Unknown { opcode: 0xf4 },
            0xf5 => Opcode::Push { register: Register::Af },
            0xf6 => Opcode::Or { operand: Operand::U8(b1) },
            0xf7 => Opcode::Rst { vector: 0x30 },
            0xf8 => Opcode::Ld16 { destination: Operand::Register(Register::Hl), source: Operand::StackOffset(make_i8(b1)) },
            0xf9 => Opcode::Ld16 { destination: Operand::Register(Register::Sp), source: Operand::Register(Register::Hl) },
            0xfa => Opcode::Ld8 { destination: Operand::Register(Register::A), source: Operand::Deref(DerefOperand::Address(make_u16(b1, b2))) },
            0xfb => Opcode::Ei,
            0xfc => Opcode::Unknown { opcode: 0xfc },
            0xfd => Opcode::Unknown { opcode: 0xfd },
            0xfe => Opcode::Cp { operand: Operand::U8(b1) },
            0xff => Opcode::Rst { vector: 0x38 },
            _ => Opcode::Unknown { opcode: b0 },
        }
    }
}

/// The canonical encoding of an opcode, if it has one: the first byte
/// and up to two immediate bytes (unused immediate bytes are zero).
/// `None` exactly for `Unknown` and for operand combinations that no
/// instruction carries.
pub open spec fn spec_encode(op: Opcode) -> Option<(u8, u8, u8)> {
    match op {
            Opcode::Nop => Option::Some((0x00, 0, 0)),
            Opcode::Stop => Option::Some((0x10, 0, 0)),
            Opcode::Halt => Option::Some((0x76, 0, 0)),
            Opcode::Ld8 { destination: Operand::Deref(DerefOperand::Register(Register::Bc)), source: Operand::Register(Register::A) } => Option::Some((0x02, 0, 0)),
            Opcode::Ld8 { destination: Operand::Deref(DerefOperand::Register(Register::De)), source: Operand::Register(Register::A) } => Option::Some((0x12, 0, 0)),
            Opcode::Ld8 { destination: Operand::Deref(DerefOperand::Register(Register::HlPlus)), source: Operand::Register(Register::A) } => Option::Some((0x22, 0, 0)),
            Opcode::Ld8 { destination: Operand::Deref(DerefOperand::Register(Register::HlMinus)), source: Operand::Register(Register::A) } => Option::Some((0x32, 0, 0)),
            Opcode::Ld8 { destination: Operand::Register(Register::A), source: Operand::Deref(DerefOperand::Register(Register::Bc)) } => Option::Some((0x0a, 0, 0)),
            Opcode::Ld8 { destination: Operand::Register(Register::A), source: Operand::Deref(DerefOperand::Register(Register::De)) } => Option::Some((0x1a, 0, 0)),
            Opcode::Ld8 { destination: Operand::Register(Register::A), source: Operand::Deref(DerefOperand::Register(Register::HlPlus)) } => Option::Some((0x2a, 0, 0)),
            Opcode::Ld8 { destination: Operand::Register(Register::A), source: Operand::Deref(DerefOperand::Register(Register::HlMinus)) } => Option::Some((0x3a, 0, 0)),
            Opcode::Ld8 { destination: Operand::Deref(DerefOperand::Ff00Offset(v)), source: Operand::Register(Register::A) } => Option::Some((0xe0, v, 0)),
            Opcode::Ld8 { destination: Operand::Register(Register::A), source: Operand::Deref(DerefOperand::Ff00Offset(v)) } => Option::Some((0xf0, v, 0)),
            Opcode::Ld8 { destination: Operand::Deref(DerefOperand::Ff00PlusC), source: Operand::Register(Register::A) } => Option::Some((0xe2, 0, 0)),
            Opcode::Ld8 { destination: Operand::Register(Register::A), source: Operand::Deref(DerefOperand::Ff00PlusC) } => Option::Some((0xf2, 0, 0)),
            Opcode::Ld8 { destination: Operand::Deref(DerefOperand::Address(v)), source: Operand::Register(Register::A) } => Option::Some((0xea, (v % 256) as u8, (v / 256) as u8)),
            Opcode::Ld8 { destination: Operand::Register(Register::A), source: Operand::Deref(DerefOperand::Address(v)) } => Option::Some((0xfa, (v % 256) as u8, (v / 256) as u8)),
            Opcode::Ld8 { destination: Operand::Register(Register::B), source: Operand::U8(v) } => Option::Some((0x6, v, 0)),
            Opcode::Ld8 { destination: Operand::Register(Register::C), source: Operand::U8(v) } => Option::Some((0xe, v, 0)),
            Opcode::Ld8 { destination: Operand::Register(Register::D), source: Operand::U8(v) } => Option::Some((0x16, v, 0)),
            Opcode::Ld8 { destination: Operand::Register(Register::E), source: Operand::U8(v) } => Option::Some((0x1e, v, 0)),
            Opcode::Ld8 { destination: Operand::Register(Register::H), source: Operand::U8(v) } => Option::Some((0x26, v, 0)),
            Opcode::Ld8 { destination: Operand::Register(Register::L), source: Operand::U8(v) } => Option::Some((0x2e, v, 0)),
            Opcode::Ld8 { destination: Operand::Deref(DerefOperand::Register(Register::Hl)), source: Operand::U8(v) } => Option::Some((0x36, v, 0)),
            Opcode::Ld8 { destination: Operand::Register(Register::A), source: Operand::U8(v) } => Option::Some((0x3e, v, 0)),
            Opcode::Ld8 { destination: d, source: s } => match (spec_r8_index(d), spec_r8_index(s)) {
                (Option::Some(i), Option::Some(j)) => if i == 6 && j == 6 {
                    Option::None
                } else {
                    Option::Some(((0x40 + 8 * i + j) as u8, 0, 0))
                },
                _ => Option::None,
            },
            Opcode::Ld16 { destination: Operand::Register(Register::Bc), source: Operand::U16(v) } => Option::Some((0x1, (v % 256) as u8, (v / 256) as u8)),
            Opcode::Ld16 { destination: Operand::Register(Register::De), source: Operand::U16(v) } => Option::Some((0x11, (v % 256) as u8, (v / 256) as u8)),
            Opcode::Ld16 { destination: Operand::Register(Register::Hl), source: Operand::U16(v) } => Option::Some((0x21, (v % 256) as u8, (v / 256) as u8)),
            Opcode::Ld16 { destination: Operand::Register(Register::Sp), source: Operand::U16(v) } => Option::Some((0x31, (v % 256) as u8, (v / 256) as u8)),
            Opcode::Ld16 { destination: Operand::Deref(DerefOperand::Address(v)), source: Operand::Register(Register::Sp) } => Option::Some((0x08, (v % 256) as u8, (v / 256) as u8)),
            Opcode::Ld16 { destination: Operand::Register(Register::Hl), source: Operand::StackOffset(d) } => Option::Some((0xf8, spec_u8_of_i8(d), 0)),
            Opcode::Ld16 { destination: Operand::Register(Register::Sp), source: Operand::Register(Register::Hl) } => Option::Some((0xf9, 0, 0)),
            Opcode::Ld16 { destination: _, source: _ } => Option::None,
            Opcode::Jp { destination: Operand::U16(v) } => Option::Some((0xc3, (v % 256) as u8, (v / 256) as u8)),
            Opcode::Jp { destination: Operand::Register(Register::Hl) } => Option::Some((0xe9, 0, 0)),
            Opcode::Jp { destination: _ } => Option::None,
            Opcode::JpCond { condition: ConditionType::NonZero, destination: v } => Option::Some((0xc2, (v % 256) as u8, (v / 256) as u8)),
            Opcode::JrCond { condition: ConditionType::NonZero, offset: d } => Option::Some((0x20, spec_u8_of_i8(d), 0)),
            Opcode::CallCond { condition: ConditionType::NonZero, destination: v } => Option::Some((0xc4, (v % 256) as u8, (v / 256) as u8)),
            Opcode::RetCond { condition: ConditionType::NonZero } => Option::Some((0xc0, 0, 0)),
            Opcode::JpCond { condition: ConditionType::Zero, destination: v } => Option::Some((0xca, (v % 256) as u8, (v / 256) as u8)),
            Opcode::JrCond { condition: ConditionType::Zero, offset: d } => Option::Some((0x28, spec_u8_of_i8(d), 0)),
            Opcode::CallCond { condition: ConditionType::Zero, destination: v } => Option::Some((0xcc, (v % 256) as u8, (v / 256) as u8)),
            Opcode::RetCond { condition: ConditionType::Zero } => Option::Some((0xc8, 0, 0)),
            Opcode::JpCond { condition: ConditionType::NotCarry, destination: v } => Option::Some((0xd2, (v % 256) as u8, (v / 256) as u8)),
            Opcode::JrCond { condition: ConditionType::NotCarry, offset: d } => Option::Some((0x30, spec_u8_of_i8(d), 0)),
            Opcode::CallCond { condition: ConditionType::NotCarry, destination: v } => Option::Some((0xd4, (v % 256) as u8, (v / 256) as u8)),
            Opcode::RetCond { condition: ConditionType::NotCarry } => Option::Some((0xd0, 0, 0)),
            Opcode::JpCond { condition: ConditionType::Carry, destination: v } => Option::Some((0xda, (v % 256) as u8, (v / 256) as u8)),
            Opcode::JrCond { condition: ConditionType::Carry, offset: d } => Option::Some((0x38, spec_u8_of_i8(d), 0)),
            Opcode::CallCond { condition: ConditionType::Carry, destination: v } => Option::Some((0xdc, (v % 256) as u8, (v / 256) as u8)),
            Opcode::RetCond { condition: ConditionType::Carry } => Option::Some((0xd8, 0, 0)),
            Opcode::Jr { offset: d } => Option::Some((0x18, spec_u8_of_i8(d), 0)),
            Opcode::Call { destination: v } => Option::Some((0xcd, (v % 256) as u8, (v / 256) as u8)),
            Opcode::Ret => Option::Some((0xc9, 0, 0)),
            Opcode::Reti => Option::Some((0xd9, 0, 0)),
            Opcode::Pop { register: Register::Bc } => Option::Some((0xc1, 0, 0)),
            Opcode::Push { register: Register::Bc } => Option::Some((0xc5, 0, 0)),
            Opcode::Pop { register: Register::De } => Option::Some((0xd1, 0, 0)),
            Opcode::Push { register: Register::De } => Option::Some((0xd5, 0, 0)),
            Opcode::Pop { register: Register::Hl } => Option::Some((0xe1, 0, 0)),
            Opcode::Push { register: Register::Hl } => Option::Some((0xe5, 0, 0)),
            Opcode::Pop { register: Register::Af } => Option::Some((0xf1, 0, 0)),
            Opcode::Push { register: Register::Af } => Option::Some((0xf5, 0, 0)),
            Opcode::Pop { register: _ } => Option::None,
            Opcode::Push { register: _ } => Option::None,
            Opcode::Rst { vector: v } => if v == 0x0 { Option::Some((0xc7, 0, 0)) } else if v == 0x8 { Option::Some((0xcf, 0, 0)) } else if v == 0x10 { Option::Some((0xd7, 0, 0)) } else if v == 0x18 { Option::Some((0xdf, 0, 0)) } else if v == 0x20 { Option::Some((0xe7, 0, 0)) } else if v == 0x28 { Option::Some((0xef, 0, 0)) } else if v == 0x30 { Option::Some((0xf7, 0, 0)) } else if v == 0x38 { Option::Some((0xff, 0, 0)) } else { Option::None },
            Opcode::Inc { operand: x } => match spec_r8_index(x) {
                Option::Some(i) => Option::Some(((0x04 + 8 * i) as u8, 0, 0)),
                Option::None => Option::None,
            },
            Opcode::Dec { operand: x } => match spec_r8_index(x) {
                Option::Some(i) => Option::Some(((0x05 + 8 * i) as u8, 0, 0)),
                Option::None => Option::None,
            },
            Opcode::Inc16 { register: Register::Bc } => Option::Some((0x3, 0, 0)),
            Opcode::Dec16 { register: Register::Bc } => Option::Some((0xb, 0, 0)),
            Opcode::Inc16 { register: Register::De } => Option::Some((0x13, 0, 0)),
            Opcode::Dec16 { register: Register::De } => Option::Some((0x1b, 0, 0)),
            Opcode::Inc16 { register: Register::Hl } => Option::Some((0x23, 0, 0)),
            Opcode::Dec16 { register: Register::Hl } => Option::Some((0x2b, 0, 0)),
            Opcode::Inc16 { register: Register::Sp } => Option::Some((0x33, 0, 0)),
            Opcode::Dec16 { register: Register::Sp } => Option::Some((0x3b, 0, 0)),
            Opcode::Inc16 { register: _ } => Option::None,
            Opcode::Dec16 { register: _ } => Option::None,
            Opcode::Add16 { register: Register::Hl, operand: Operand::Register(Register::Bc) } => Option::Some((0x9, 0, 0)),
            Opcode::Add16 { register: Register::Hl, operand: Operand::Register(Register::De) } => Option::Some((0x19, 0, 0)),
            Opcode::Add16 { register: Register::Hl, operand: Operand::Register(Register::Hl) } => Option::Some((0x29, 0, 0)),
            Opcode::Add16 { register: Register::Hl, operand: Operand::Register(Register::Sp) } => Option::Some((0x39, 0, 0)),
            Opcode::Add16 { register: Register::Sp, operand: Operand::I8(d) } => Option::Some((0xe8, spec_u8_of_i8(d), 0)),
            Opcode::Add16 { register: _, operand: _ } => Option::None,
            Opcode::Add8 { operand: Operand::U8(v) } => Option::Some((0xc6, v, 0)),
            Opcode::Add8 { operand: x } => match spec_r8_index(x) {
                Option::Some(i) => Option::Some(((0x80 + i) as u8, 0, 0)),
                Option::None => Option::None,
            },
            Opcode::Adc { operand: Operand::U8(v) } => Option::Some((0xce, v, 0)),
            Opcode::Adc { operand: x } => match spec_r8_index(x) {
                Option::Some(i) => Option::Some(((0x88 + i) as u8, 0, 0)),
                Option::None => Option::None,
            },
            Opcode::Sub { operand: Operand::U8(v) } => Option::Some((0xd6, v, 0)),
            Opcode::Sub { operand: x } => match spec_r8_index(x) {
                Option::Some(i) => Option::Some(((0x90 + i) as u8, 0, 0)),
                Option::None => Option::None,
            },
            Opcode::Sbc { operand: Operand::U8(v) } => Option::Some((0xde, v, 0)),
            Opcode::Sbc { operand: x } => match spec_r8_index(x) {
                Option::Some(i) => Option::Some(((0x98 + i) as u8, 0, 0)),
                Option::None => Option::None,
            },
            Opcode::And { operand: Operand::U8(v) } => Option::Some((0xe6, v, 0)),
            Opcode::And { operand: x } => match spec_r8_index(x) {
                Option::Some(i) => Option::Some(((0xa0 + i) as u8, 0, 0)),
                Option::None => Option::None,
            },
            Opcode::Xor { operand: Operand::U8(v) } => Option::Some((0xee, v, 0)),
            Opcode::Xor { operand: x } => match spec_r8_index(x) {
                Option::Some(i) => Option::Some(((0xa8 + i) as u8, 0, 0)),
                Option::None => Option::None,
            },
            Opcode::Or { operand: Operand::U8(v) } => Option::Some((0xf6, v, 0)),
            Opcode::Or { operand: x } => match spec_r8_index(x) {
                Option::Some(i) => Option::Some(((0xb0 + i) as u8, 0, 0)),
                Option::None => Option::None,
            },
            Opcode::Cp { operand: Operand::U8(v) } => Option::Some((0xfe, v, 0)),
            Opcode::Cp { operand: x } => match spec_r8_index(x) {
                Option::Some(i) => Option::Some(((0xb8 + i) as u8, 0, 0)),
                Option::None => Option::None,
            },
            Opcode::Cpl => Option::Some((0x2f, 0, 0)),
            Opcode::Daa => Option::Some((0x27, 0, 0)),
            Opcode::Rlca => Option::Some((0x7, 0, 0)),
            Opcode::Rla => Option::Some((0x17, 0, 0)),
            Opcode::Rrca => Option::Some((0xf, 0, 0)),
            Opcode::Rra => Option::Some((0x1f, 0, 0)),
            Opcode::Scf => Option::Some((0x37, 0, 0)),
            Opcode::Ccf => Option::Some((0x3f, 0, 0)),
            Opcode::Di => Option::Some((0xf3, 0, 0)),
            Opcode::Ei => Option::Some((0xfb, 0, 0)),
            Opcode::Rlc { operand: x } => match spec_r8_index(x) {
                Option::Some(i) => Option::Some((0xcb, (0x0 + i) as u8, 0)),
                Option::None => Option::None,
            },
            Opcode::Rrc { operand: x } => match spec_r8_index(x) {
                Option::Some(i) => Option::Some((0xcb, (0x8 + i) as u8, 0)),
                Option::None => Option::None,
            },
            Opcode::Rl { operand: x } => match spec_r8_index(x) {
                Option::Some(i) => Option::Some((0xcb, (0x10 + i) as u8, 0)),
                Option::None => Option::None,
            },
            Opcode::Rr { operand: x } => match spec_r8_index(x) {
                Option::Some(i) => Option::Some((0xcb, (0x18 + i) as u8, 0)),
                Option::None => Option::None,
            },
            Opcode::Sla { operand: x } => match spec_r8_index(x) {
                Option::Some(i) => Option::Some((0xcb, (0x20 + i) as u8, 0)),
                Option::None => Option::None,
            },
            Opcode::Sra { operand: x } => match spec_r8_index(x) {
                Option::Some(i) => Option::Some((0xcb, (0x28 + i) as u8, 0)),
                Option::None => Option::None,
            },
            Opcode::Swap { operand: x } => match spec_r8_index(x) {
                Option::Some(i) => Option::Some((0xcb, (0x30 + i) as u8, 0)),
                Option::None => Option::None,
            },
            Opcode::Srl { operand: x } => match spec_r8_index(x) {
                Option::Some(i) => Option::Some((0xcb, (0x38 + i) as u8, 0)),
                Option::None => Option::None,
            },
            Opcode::Bit { bit: n, destination: x } => if n < 8 {
                match spec_r8_index(x) {
                    Option::Some(i) => Option::Some((0xcb, (0x40 + 8 * n + i) as u8, 0)),
                    Option::None => Option::None,
                }
            } else {
                Option::None
            },
            Opcode::Res { bit: n, destination: x } => if n < 8 {
                match spec_r8_index(x) {
                    Option::Some(i) => Option::Some((0xcb, (0x80 + 8 * n + i) as u8, 0)),
                    Option::None => Option::None,
                }
            } else {
                Option::None
            },
            Opcode::SetBit { bit: n, destination: x } => if n < 8 {
                match spec_r8_index(x) {
                    Option::Some(i) => Option::Some((0xcb, (0xc0 + 8 * n + i) as u8, 0)),
                    Option::None => Option::None,
                }
            } else {
                Option::None
            },
            Opcode::Unknown { opcode: _ } => Option::None,
    }
}

/// Encodes an opcode back to bytes; the inverse of `decode`.
pub fn encode(op: &Opcode) -> (r: Option<(u8, u8, u8)>)
    ensures
        r == spec_encode(*op),
{
    match *op {
            Opcode::Nop => Option::Some((0x00, 0, 0)),
            Opcode::Stop => Option::Some((0x10, 0, 0)),
            Opcode::Halt => Option::Some((0x76, 0, 0)),
            Opcode::Ld8 { destination: Operand::Deref(DerefOperand::Register(Register::Bc)), source: Operand::Register(Register::A) } => Option::Some((0x02, 0, 0)),
            Opcode::Ld8 { destination: Operand::Deref(DerefOperand::Register(Register::De)), source: Operand::Register(Register::A) } => Option::Some((0x12, 0, 0)),
            Opcode::Ld8 { destination: Operand::Deref(DerefOperand::Register(Register::HlPlus)), source: Operand::Register(Register::A) } => Option::Some((0x22, 0, 0)),
            Opcode::Ld8 { destination: Operand::Deref(DerefOperand::Register(Register::HlMinus)), source: Operand::Register(Register::A) } => Option::Some((0x32, 0, 0)),
            Opcode::Ld8 { destination: Operand::Register(Register::A), source: Operand::Deref(DerefOperand::Register(Register::Bc)) } => Option::Some((0x0a, 0, 0)),
            Opcode::Ld8 { destination: Operand::Register(Register::A), source: Operand::Deref(DerefOperand::Register(Register::De)) } => Option::Some((0x1a, 0, 0)),
            Opcode::Ld8 { destination: Operand::Register(Register::A), source: Operand::Deref(DerefOperand::Register(Register::HlPlus)) } => Option::Some((0x2a, 0, 0)),
            Opcode::Ld8 { destination: Operand::Register(Register::A), source: Operand::Deref(DerefOperand::Register(Register::HlMinus)) } => Option::Some((0x3a, 0, 0)),
            Opcode::Ld8 { destination: Operand::Deref(DerefOperand::Ff00Offset(v)), source: Operand::Register(Register::A) } => Option::Some((0xe0, v, 0)),
            Opcode::Ld8 { destination: Operand::Register(Register::A), source: Operand::Deref(DerefOperand::Ff00Offset(v)) } => Option::Some((0xf0, v, 0)),
            Opcode::Ld8 { destination: Operand::Deref(DerefOperand::Ff00PlusC), source: Operand::Register(Register::A) } => Option::Some((0xe2, 0, 0)),
            Opcode::Ld8 { destination: Operand::Register(Register::A), source: Operand::Deref(DerefOperand::Ff00PlusC) } => Option::Some((0xf2, 0, 0)),
            Opcode::Ld8 { destination: Operand::Deref(DerefOperand::Address(v)), source: Operand::Register(Register::A) } => Option::Some((0xea, (v % 256) as u8, (v / 256) as u8)),
            Opcode::Ld8 { destination: Operand::Register(Register::A), source: Operand::Deref(DerefOperand::Address(v)) } => Option::Some((0xfa, (v % 256) as u8, (v / 256) as u8)),
            Opcode::Ld8 { destination: Operand::Register(Register::B), source: Operand::U8(v) } => Option::Some((0x6, v, 0)),
            Opcode::Ld8 { destination: Operand::Register(Register::C), source: Operand::U8(v) } => Option::Some((0xe, v, 0)),
            Opcode::Ld8 { destination: Operand::Register(Register::D), source: Operand::U8(v) } => Option::Some((0x16, v, 0)),
            Opcode::Ld8 { destination: Operand::Register(Register::E), source: Operand::U8(v) } => Option::Some((0x1e, v, 0)),
            Opcode::Ld8 { destination: Operand::Register(Register::H), source: Operand::U8(v) } => Option::Some((0x26, v, 0)),
            Opcode::Ld8 { destination: Operand::Register(Register::L), source: Operand::U8(v) } => Option::Some((0x2e, v, 0)),
            Opcode::Ld8 { destination: Operand::Deref(DerefOperand::Register(Register::Hl)), source: Operand::U8(v) } => Option::Some((0x36, v, 0)),
            Opcode::Ld8 { destination: Operand::Register(Register::A), source: Operand::U8(v) } => Option::Some((0x3e, v, 0)),
            Opcode::Ld8 { destination: d, source: s } => match (r8_index(d), r8_index(s)) {
                (Option::Some(i), Option::Some(j)) => if i == 6 && j == 6 {
                    Option::None
                } else {
                    Option::Some(((0x40 + 8 * i + j) as u8, 0, 0))
                },
                _ => Option::None,
            },
            Opcode::Ld16 { destination: Operand::Register(Register::Bc), source: Operand::U16(v) } => Option::Some((0x1, (v % 256) as u8, (v / 256) as u8)),
            Opcode::Ld16 { destination: Operand::Register(Register::De), source: Operand::U16(v) } => Option::Some((0x11, (v % 256) as u8, (v / 256) as u8)),
            Opcode::Ld16 { destination: Operand::Register(Register::Hl), source: Operand::U16(v) } => Option::Some((0x21, (v % 256) as u8, (v / 256) as u8)),
            Opcode::Ld16 { destination: Operand::Register(Register::Sp), source: Operand::U16(v) } => Option::Some((0x31, (v % 256) as u8, (v / 256) as u8)),
            Opcode::Ld16 { destination: Operand::Deref(DerefOperand::Address(v)), source: Operand::Register(Register::Sp) } => Option::Some((0x08, (v % 256) as u8, (v / 256) as u8)),
            Opcode::Ld16 { destination: Operand::Register(Register::Hl), source: Operand::StackOffset(d) } => Option::Some((0xf8, u8_of_i8(d), 0)),
            Opcode::Ld16 { destination: Operand::Register(Register::Sp), source: Operand::Register(Register::Hl) } => Option::Some((0xf9, 0, 0)),
            Opcode::Ld16 { destination: _, source: _ } => Option::None,
            Opcode::Jp { destination: Operand::U16(v) } => Option::Some((0xc3, (v % 256) as u8, (v / 256) as u8)),
            Opcode::Jp { destination: Operand::Register(Register::Hl) } => Option::Some((0xe9, 0, 0)),
            Opcode::Jp { destination: _ } => Option::None,
            Opcode::JpCond { condition: ConditionType::NonZero, destination: v } => Option::Some((0xc2, (v % 256) as u8, (v / 256) as u8)),
            Opcode::JrCond { condition: ConditionType::NonZero, offset: d } => Option::Some((0x20, u8_of_i8(d), 0)),
            Opcode::CallCond { condition: ConditionType::NonZero, destination: v } => Option::Some((0xc4, (v % 256) as u8, (v / 256) as u8)),
            Opcode::RetCond { condition: ConditionType::NonZero } => Option::Some((0xc0, 0, 0)),
            Opcode::JpCond { condition: ConditionType::Zero, destination: v } => Option::Some((0xca, (v % 256) as u8, (v / 256) as u8)),
            Opcode::JrCond { condition: ConditionType::Zero, offset: d } => Option::Some((0x28, u8_of_i8(d), 0)),
            Opcode::CallCond { condition: ConditionType::Zero, destination: v } => Option::Some((0xcc, (v % 256) as u8, (v / 256) as u8)),
            Opcode::RetCond { condition: ConditionType::Zero } => Option::Some((0xc8, 0, 0)),
            Opcode::JpCond { condition: ConditionType::NotCarry, destination: v } => Option::Some((0xd2, (v % 256) as u8, (v / 256) as u8)),
            Opcode::JrCond { condition: ConditionType::NotCarry, offset: d } => Option::Some((0x30, u8_of_i8(d), 0)),
            Opcode::CallCond { condition: ConditionType::NotCarry, destination: v } => Option::Some((0xd4, (v % 256) as u8, (v / 256) as u8)),
            Opcode::RetCond { condition: ConditionType::NotCarry } => Option::Some((0xd0, 0, 0)),
            Opcode::JpCond { condition: ConditionType::Carry, destination: v } => Option::Some((0xda, (v % 256) as u8, (v / 256) as u8)),
            Opcode::JrCond { condition: ConditionType::Carry, offset: d } => Option::Some((0x38, u8_of_i8(d), 0)),
            Opcode::CallCond { condition: ConditionType::Carry, destination: v } => Option::Some((0xdc, (v % 256) as u8, (v / 256) as u8)),
            Opcode::RetCond { condition: ConditionType::Carry } => Option::Some((0xd8, 0, 0)),
            Opcode::Jr { offset: d } => Option::Some((0x18, u8_of_i8(d), 0)),
            Opcode::Call { destination: v } => Option::Some((0xcd, (v % 256) as u8, (v / 256) as u8)),
            Opcode::Ret => Option::Some((0xc9, 0, 0)),
            Opcode::Reti => Option::Some((0xd9, 0, 0)),
            Opcode::Pop { register: Register::Bc } => Option::Some((0xc1, 0, 0)),
            Opcode::Push { register: Register::Bc } => Option::Some((0xc5, 0, 0)),
            Opcode::Pop { register: Register::De } => Option::Some((0xd1, 0, 0)),
            Opcode::Push { register: Register::De } => Option::Some((0xd5, 0, 0)),
            Opcode::Pop { register: Register::Hl } => Option::Some((0xe1, 0, 0)),
            Opcode::Push { register: Register::Hl } => Option::Some((0xe5, 0, 0)),
            Opcode::Pop { register: Register::Af } => Option::Some((0xf1, 0, 0)),
            Opcode::Push { register: Register::Af } => Option::Some((0xf5, 0, 0)),
            Opcode::Pop { register: _ } => Option::None,
            Opcode::Push { register: _ } => Option::None,
            Opcode::Rst { vector: v } => if v == 0x0 { Option::Some((0xc7, 0, 0)) } else if v == 0x8 { Option::Some((0xcf, 0, 0)) } else if v == 0x10 { Option::Some((0xd7, 0, 0)) } else if v == 0x18 { Option::Some((0xdf, 0, 0)) } else if v == 0x20 { Option::Some((0xe7, 0, 0)) } else if v == 0x28 { Option::Some((0xef, 0, 0)) } else if v == 0x30 { Option::Some((0xf7, 0, 0)) } else if v == 0x38 { Option::Some((0xff, 0, 0)) } else { Option::None },
            Opcode::Inc { operand: x } => match r8_index(x) {
                Option::Some(i) => Option::Some(((0x04 + 8 * i) as u8, 0, 0)),
                Option::None => Option::None,
            },
            Opcode::Dec { operand: x } => match r8_index(x) {
                Option::Some(i) => Option::Some(((0x05 + 8 * i) as u8, 0, 0)),
                Option::None => Option::None,
            },
            Opcode::Inc16 { register: Register::Bc } => Option::Some((0x3, 0, 0)),
            Opcode::Dec16 { register: Register::Bc } => Option::Some((0xb, 0, 0)),
            Opcode::Inc16 { register: Register::De } => Option::Some((0x13, 0, 0)),
            Opcode::Dec16 { register: Register::De } => Option::Some((0x1b, 0, 0)),
            Opcode::Inc16 { register: Register::Hl } => Option::Some((0x23, 0, 0)),
            Opcode::Dec16 { register: Register::Hl } => Option::Some((0x2b, 0, 0)),
            Opcode::Inc16 { register: Register::Sp } => Option::Some((0x33, 0, 0)),
            Opcode::Dec16 { register: Register::Sp } => Option::Some((0x3b, 0, 0)),
            Opcode::Inc16 { register: _ } => Option::None,
            Opcode::Dec16 { register: _ } => Option::None,
            Opcode::Add16 { register: Register::Hl, operand: Operand::Register(Register::Bc) } => Option::Some((0x9, 0, 0)),
            Opcode::Add16 { register: Register::Hl, operand: Operand::Register(Register::De) } => Option::Some((0x19, 0, 0)),
            Opcode::Add16 { register: Register::Hl, operand: Operand::Register(Register::Hl) } => Option::Some((0x29, 0, 0)),
            Opcode::Add16 { register: Register::Hl, operand: Operand::Register(Register::Sp) } => Option::Some((0x39, 0, 0)),
            Opcode::Add16 { register: Register::Sp, operand: Operand::I8(d) } => Option::Some((0xe8, u8_of_i8(d), 0)),
            Opcode::Add16 { register: _, operand: _ } => Option::None,
            Opcode::Add8 { operand: Operand::U8(v) } => Option::Some((0xc6, v, 0)),
            Opcode::Add8 { operand: x } => match r8_index(x) {
                Option::Some(i) => Option::Some(((0x80 + i) as u8, 0, 0)),
                Option::None => Option::None,
            },
            Opcode::Adc { operand: Operand::U8(v) } => Option::Some((0xce, v, 0)),
            Opcode::Adc { operand: x } => match r8_index(x) {
                Option::Some(i) => Option::Some(((0x88 + i) as u8, 0, 0)),
                Option::None => Option::None,
            },
            Opcode::Sub { operand: Operand::U8(v) } => Option::Some((0xd6, v, 0)),
            Opcode::Sub { operand: x } => match r8_index(x) {
                Option::Some(i) => Option::Some(((0x90 + i) as u8, 0, 0)),
                Option::None => Option::None,
            },
            Opcode::Sbc { operand: Operand::U8(v) } => Option::Some((0xde, v, 0)),
            Opcode::Sbc { operand: x } => match r8_index(x) {
                Option::Some(i) => Option::Some(((0x98 + i) as u8, 0, 0)),
                Option::None => Option::None,
            },
            Opcode::And { operand: Operand::U8(v) } => Option::Some((0xe6, v, 0)),
            Opcode::And { operand: x } => match r8_index(x) {
                Option::Some(i) => Option::Some(((0xa0 + i) as u8, 0, 0)),
                Option::None => Option::None,
            },
            Opcode::Xor { operand: Operand::U8(v) } => Option::Some((0xee, v, 0)),
            Opcode::Xor { operand: x } => match r8_index(x) {
                Option::Some(i) => Option::Some(((0xa8 + i) as u8, 0, 0)),
                Option::None => Option::None,
            },
            Opcode::Or { operand: Operand::U8(v) } => Option::Some((0xf6, v, 0)),
            Opcode::Or { operand: x } => match r8_index(x) {
                Option::Some(i) => Option::Some(((0xb0 + i) as u8, 0, 0)),
                Option::None => Option::None,
            },
            Opcode::Cp { operand: Operand::U8(v) } => Option::Some((0xfe, v, 0)),
            Opcode::Cp { operand: x } => match r8_index(x) {
                Option::Some(i) => Option::Some(((0xb8 + i) as u8, 0, 0)),
                Option::None => Option::None,
            },
            Opcode::Cpl => Option::Some((0x2f, 0, 0)),
            Opcode::Daa => Option::Some((0x27, 0, 0)),
            Opcode::Rlca => Option::Some((0x7, 0, 0)),
            Opcode::Rla => Option::Some((0x17, 0, 0)),
            Opcode::Rrca => Option::Some((0xf, 0, 0)),
            Opcode::Rra => Option::Some((0x1f, 0, 0)),
            Opcode::Scf => Option::Some((0x37, 0, 0)),
            Opcode::Ccf => Option::Some((0x3f, 0, 0)),
            Opcode::Di => Option::Some((0xf3, 0, 0)),
            Opcode::Ei => Option::Some((0xfb, 0, 0)),
            Opcode::Rlc { operand: x } => match r8_index(x) {
                Option::Some(i) => Option::Some((0xcb, (0x0 + i) as u8, 0)),
                Option::None => Option::None,
            },
            Opcode::Rrc { operand: x } => match r8_index(x) {
                Option::Some(i) => Option::Some((0xcb, (0x8 + i) as u8, 0)),
                Option::None => Option::None,
            },
            Opcode::Rl { operand: x } => match r8_index(x) {
                Option::Some(i) => Option::Some((0xcb, (0x10 + i) as u8, 0)),
                Option::None => Option::None,
            },
            Opcode::Rr { operand: x } => match r8_index(x) {
                Option::Some(i) => Option::Some((0xcb, (0x18 + i) as u8, 0)),
                Option::None => Option::None,
            },
            Opcode::Sla { operand: x } => match r8_index(x) {
                Option::Some(i) => Option::Some((0xcb, (0x20 + i) as u8, 0)),
                Option::None => Option::None,
            },
            Opcode::Sra { operand: x } => match r8_index(x) {
                Option::Some(i) => Option::Some((0xcb, (0x28 + i) as u8, 0)),
                Option::None => Option::None,
            },
            Opcode::Swap { operand: x } => match r8_index(x) {
                Option::Some(i) => Option::Some((0xcb, (0x30 + i) as u8, 0)),
                Option::None => Option::None,
            },
            Opcode::Srl { operand: x } => match r8_index(x) {
                Option::Some(i) => Option::Some((0xcb, (0x38 + i) as u8, 0)),
                Option::None => Option::None,
            },
            Opcode::Bit { bit: n, destination: x } => if n < 8 {
                match r8_index(x) {
                    Option::Some(i) => Option::Some((0xcb, (0x40 + 8 * n + i) as u8, 0)),
                    Option::None => Option::None,
                }
            } else {
                Option::None
            },
            Opcode::Res { bit: n, destination: x } => if n < 8 {
                match r8_index(x) {
                    Option::Some(i) => Option::Some((0xcb, (0x80 + 8 * n + i) as u8, 0)),
                    Option::None => Option::None,
                }
            } else {
                Option::None
            },
            Opcode::SetBit { bit: n, destination: x } => if n < 8 {
                match r8_index(x) {
                    Option::Some(i) => Option::Some((0xcb, (0xc0 + 8 * n + i) as u8, 0)),
                    Option::None => Option::None,
                }
            } else {
                Option::None
            },
            Opcode::Unknown { opcode: _ } => Option::None,
    }
}

/// How many bytes an instruction occupies: the opcode byte plus its
/// immediate operands. STOP is a single byte.
pub open spec fn spec_size(op: Opcode) -> u8 {
    match op {
        Opcode::Unknown { .. } => 1,
        Opcode::Nop => 1,
        Opcode::Stop => 1,
        Opcode::Halt => 1,
        Opcode::Ld8 { destination, source } => {
            if source matches Operand::U8(..) {
                2
            } else if source matches Operand::Deref(DerefOperand::Ff00Offset(..)) {
                2
            } else if source matches Operand::Deref(DerefOperand::Address(..)) {
                3
            } else if destination matches Operand::Deref(DerefOperand::Address(..)) {
                3
            } else if destination matches Operand::Deref(DerefOperand::Ff00Offset(..)) {
                2
            } else {
                1
            }
        },
        Opcode::Ld16 { destination, source } => {
            if destination matches Operand::Deref(DerefOperand::Address(..)) {
                3
            } else if source matches Operand::U16(..) {
                3
            } else if source matches Operand::StackOffset(..) {
                2
            } else {
                1
            }
        },
        Opcode::Jp { destination } => {
            if destination matches Operand::Register(Register::Hl) {
                1
            } else {
                3
            }
        },
        Opcode::JpCond { .. } => 3,
        Opcode::Jr { .. } => 2,
        Opcode::JrCond { .. } => 2,
        Opcode::Call { .. } => 3,
        Opcode::CallCond { .. } => 3,
        Opcode::Ret => 1,
        Opcode::RetCond { .. } => 1,
        Opcode::Reti => 1,
        Opcode::Pop { .. } => 1,
        Opcode::Push { .. } => 1,
        Opcode::Rst { .. } => 1,
        Opcode::Bit { .. } => 2,
        Opcode::Res { .. } => 2,
        Opcode::SetBit { .. } => 2,
        Opcode::Add8 { operand } => if operand matches Operand::U8(..) { 2 } else { 1 },
        Opcode::Add16 { operand, .. } => {
            if operand matches Operand::I8(..) {
                2
            } else if operand matches Operand::StackOffset(..) {
                2
            } else {
                1
            }
        },
        Opcode::Inc { .. } => 1,
        Opcode::Inc16 { .. } => 1,
        Opcode::Dec { .. } => 1,
        Opcode::Dec16 { .. } => 1,
        Opcode::Adc { operand } => if operand matches Operand::U8(..) { 2 } else { 1 },
        Opcode::Sub { operand } => if operand matches Operand::U8(..) { 2 } else { 1 },
        Opcode::Sbc { operand } => if operand matches Operand::U8(..) { 2 } else { 1 },
        Opcode::And { operand } => if operand matches Operand::U8(..) { 2 } else { 1 },
        Opcode::Xor { operand } => if operand matches Operand::U8(..) { 2 } else { 1 },
        Opcode::Or { operand } => if operand matches Operand::U8(..) { 2 } else { 1 },
        Opcode::Cp { operand } => if operand matches Operand::U8(..) { 2 } else { 1 },
        Opcode::Cpl => 1,
        Opcode::Daa => 1,
        Opcode::Rlca => 1,
        Opcode::Rla => 1,
        Opcode::Rrca => 1,
        Opcode::Rra => 1,
        Opcode::Rlc { .. } => 2,
        Opcode::Rl { .. } => 2,
        Opcode::Rrc { .. } => 2,
        Opcode::Rr { .. } => 2,
        Opcode::Sla { .. } => 2,
        Opcode::Swap { .. } => 2,
        Opcode::Sra { .. } => 2,
        Opcode::Srl { .. } => 2,
        Opcode::Scf => 1,
        Opcode::Ccf => 1,
        Opcode::Di => 1,
        Opcode::Ei => 1,
    }
}

impl Opcode {
    pub fn size(&self) -> (r: u8)
        ensures
            r == spec_size(*self),
            1 <= r <= 3,
    {
        match *self {
            Opcode::Unknown { .. } => 1,
            Opcode::Nop => 1,
            Opcode::Stop => 1,
            Opcode::Halt => 1,
            Opcode::Ld8 { destination, source } => {
                if matches!(source, Operand::U8(..)) {
                    2
                } else if matches!(source, Operand::Deref(DerefOperand::Ff00Offset(..))) {
                    2
                } else if matches!(source, Operand::Deref(DerefOperand::Address(..))) {
                    3
                } else if matches!(destination, Operand::Deref(DerefOperand::Address(..))) {
                    3
                } else if matches!(destination, Operand::Deref(DerefOperand::Ff00Offset(..))) {
                    2
                } else {
                    1
                }
            },
            Opcode::Ld16 { destination, source } => {
                if matches!(destination, Operand::Deref(DerefOperand::Address(..))) {
                    3
                } else if matches!(source, Operand::U16(..)) {
                    3
                } else if matches!(source, Operand::StackOffset(..)) {
                    2
                } else {
                    1
                }
            },
            Opcode::Jp { destination } => {
                if matches!(destination, Operand::Register(Register::Hl)) {
                    1
                } else {
                    3
                }
            },
            Opcode::JpCond { .. } => 3,
            Opcode::Jr { .. } => 2,
            Opcode::JrCond { .. } => 2,
            Opcode::Call { .. } => 3,
            Opcode::CallCond { .. } => 3,
            Opcode::Ret => 1,
            Opcode::RetCond { .. } => 1,
            Opcode::Reti => 1,
            Opcode::Pop { .. } => 1,
            Opcode::Push { .. } => 1,
            Opcode::Rst { .. } => 1,
            Opcode::Bit { .. } => 2,
            Opcode::Res { .. } => 2,
            Opcode::SetBit { .. } => 2,
            Opcode::Add8 { operand } => if matches!(operand, Operand::U8(..)) { 2 } else { 1 },
            Opcode::Add16 { operand, .. } => {
                if matches!(operand, Operand::I8(..)) {
                    2
                } else if matches!(operand, Operand::StackOffset(..)) {
                    2
                } else {
                    1
                }
            },
            Opcode::Inc { .. } => 1,
            Opcode::Inc16 { .. } => 1,
            Opcode::Dec { .. } => 1,
            Opcode::Dec16 { .. } => 1,
            Opcode::Adc { operand } => if matches!(operand, Operand::U8(..)) { 2 } else { 1 },
            Opcode::Sub { operand } => if matches!(operand, Operand::U8(..)) { 2 } else { 1 },
            Opcode::Sbc { operand } => if matches!(operand, Operand::U8(..)) { 2 } else { 1 },
            Opcode::And { operand } => if matches!(operand, Operand::U8(..)) { 2 } else { 1 },
            Opcode::Xor { operand } => if matches!(operand, Operand::U8(..)) { 2 } else { 1 },
            Opcode::Or { operand } => if matches!(operand, Operand::U8(..)) { 2 } else { 1 },
            Opcode::Cp { operand } => if matches!(operand, Operand::U8(..)) { 2 } else { 1 },
            Opcode::Cpl => 1,
            Opcode::Daa => 1,
            Opcode::Rlca => 1,
            Opcode::Rla => 1,
            Opcode::Rrca => 1,
            Opcode::Rra => 1,
            Opcode::Rlc { .. } => 2,
            Opcode::Rl { .. } => 2,
            Opcode::Rrc { .. } => 2,
            Opcode::Rr { .. } => 2,
            Opcode::Sla { .. } => 2,
            Opcode::Swap { .. } => 2,
            Opcode::Sra { .. } => 2,
            Opcode::Srl { .. } => 2,
            Opcode::Scf => 1,
            Opcode::Ccf => 1,
            Opcode::Di => 1,
            Opcode::Ei => 1,
        }
    }
}

/// A decoded instruction together with the address it was fetched from.
#[derive(Clone, Copy, Debug)]
pub struct Instruction {
    pub address: u16,
    pub op: Opcode,
}

impl Instruction {
    /// Decodes the instruction whose first byte sits at `address`;
    /// `b0`, `b1`, `b2` are the three bytes starting there.
    #[must_use]
    pub fn new(address: u16, b0: u8, b1: u8, b2: u8) -> (r: Self)
        ensures
            r.address == address,
            r.op == spec_decode(b0, b1, b2),
    {
        Instruction { address, op: decode(b0, b1, b2) }
    }

    #[must_use]
    pub fn size(&self) -> (r: u8)
        ensures
            r == spec_size(self.op),
            1 <= r <= 3,
    {
        self.op.size()
    }
}

/// The operand index map and the operand table are inverses.
proof fn lemma_r8_index_inverts(x: Operand)
    ensures
        spec_r8_index(x) matches Option::Some(i) ==> i < 8 && spec_r8_operand(i) == x,
{
    match x {
        Operand::Register(r) => {
            match r {
                Register::A => {},
                Register::B => {},
                Register::C => {},
                Register::D => {},
                Register::E => {},
                Register::H => {},
                Register::L => {},
                _ => {},
            }
        },
        Operand::Deref(d) => {
            match d {
                DerefOperand::Register(Register::Hl) => {},
                _ => {},
            }
        },
        _ => {},
    }
}

/// Law: decoding the canonical encoding of an opcode yields that
/// opcode back, for every opcode that has an encoding.
#[verifier::rlimit(100)]
#[verifier::spinoff_prover]
pub proof fn lemma_decode_encode_round_trip(op: Opcode)
    ensures
        spec_encode(op) matches Option::Some(bytes) ==> spec_decode(
            bytes.0,
            bytes.1,
            bytes.2,
        ) == op,
{
    match op {
        Opcode::Nop => {},
        Opcode::Stop => {},
        Opcode::Halt => {},
        Opcode::Ret => {},
        Opcode::Reti => {},
        Opcode::Cpl => {},
        Opcode::Daa => {},
        Opcode::Rlca => {},
        Opcode::Rla => {},
        Opcode::Rrca => {},
        Opcode::Rra => {},
        Opcode::Scf => {},
        Opcode::Ccf => {},
        Opcode::Di => {},
        Opcode::Ei => {},
        Opcode::Unknown { .. } => {},
        Opcode::Ld8 { destination, source } => {
            lemma_r8_index_inverts(destination);
            lemma_r8_index_inverts(source);
        },
        Opcode::Ld16 { destination: _, source: _ } => {},
        Opcode::Jp { destination: _ } => {},
        Opcode::Jr { offset: _ } => {},
        Opcode::Call { destination: _ } => {},
        Opcode::JpCond { condition, destination: _ } => {
            match condition {
                ConditionType::NonZero => {},
                ConditionType::Zero => {},
                ConditionType::NotCarry => {},
                ConditionType::Carry => {},
            }
        },
        Opcode::JrCond { condition, offset: _ } => {
            match condition {
                ConditionType::NonZero => {},
                ConditionType::Zero => {},
                ConditionType::NotCarry => {},
                ConditionType::Carry => {},
            }
        },
        Opcode::CallCond { condition, destination: _ } => {
            match condition {
                ConditionType::NonZero => {},
                ConditionType::Zero => {},
                ConditionType::NotCarry => {},
                ConditionType::Carry => {},
            }
        },
        Opcode::RetCond { condition } => {
            match condition {
                ConditionType::NonZero => {},
                ConditionType::Zero => {},
                ConditionType::NotCarry => {},
                ConditionType::Carry => {},
            }
        },
        Opcode::Pop { register: _ } => {},
        Opcode::Push { register: _ } => {},
        Opcode::Rst { vector: _ } => {},
        Opcode::Inc16 { register: _ } => {},
        Opcode::Dec16 { register: _ } => {},
        Opcode::Add16 { register: _, operand: _ } => {},
        Opcode::Inc { operand } => {
            lemma_r8_index_inverts(operand);
        },
        Opcode::Dec { operand } => {
            lemma_r8_index_inverts(operand);
        },
        Opcode::Add8 { operand } => {
            lemma_r8_index_inverts(operand);
        },
        Opcode::Adc { operand } => {
            lemma_r8_index_inverts(operand);
        },
        Opcode::Sub { operand } => {
            lemma_r8_index_inverts(operand);
        },
        Opcode::Sbc { operand } => {
            lemma_r8_index_inverts(operand);
        },
        Opcode::And { operand } => {
            lemma_r8_index_inverts(operand);
        },
        Opcode::Xor { operand } => {
            lemma_r8_index_inverts(operand);
        },
        Opcode::Or { operand } => {
            lemma_r8_index_inverts(operand);
        },
        Opcode::Cp { operand } => {
            lemma_r8_index_inverts(operand);
        },
        Opcode::Rlc { operand } => {
            lemma_r8_index_inverts(operand);
        },
        Opcode::Rrc { operand } => {
            lemma_r8_index_inverts(operand);
        },
        Opcode::Rl { operand } => {
            lemma_r8_index_inverts(operand);
        },
        Opcode::Rr { operand } => {
            lemma_r8_index_inverts(operand);
        },
        Opcode::Sla { operand } => {
            lemma_r8_index_inverts(operand);
        },
        Opcode::Sra { operand } => {
            lemma_r8_index_inverts(operand);
        },
        Opcode::Swap { operand } => {
            lemma_r8_index_inverts(operand);
        },
        Opcode::Srl { operand } => {
            lemma_r8_index_inverts(operand);
        },
        Opcode::Bit { bit: _, destination } => {
            lemma_r8_index_inverts(destination);
        },
        Opcode::Res { bit: _, destination } => {
            lemma_r8_index_inverts(destination);
        },
        Opcode::SetBit { bit: _, destination } => {
            lemma_r8_index_inverts(destination);
        },
    }
}



/// Law: every byte pattern that decodes to a legal opcode decodes to
/// one that encodes again; only the eleven illegal bytes decode to
/// `Unknown`, which has no encoding.
#[verifier::rlimit(100)]
#[verifier::spinoff_prover]
pub proof fn lemma_decoded_opcodes_have_encodings(b0: u8, b1: u8, b2: u8)
    ensures
        !(spec_decode(b0, b1, b2) matches Opcode::Unknown { .. }) ==> spec_encode(
            spec_decode(b0, b1, b2),
        ) is Some,
{
    if b0 / 64 == 1 {
        if b0 != 0x76 {
            lemma_r8_operand_has_index(((b0 / 8) % 8) as u8);
            lemma_r8_operand_has_index((b0 % 8) as u8);
        }
    } else if b0 / 64 == 2 {
        lemma_r8_operand_has_index((b0 % 8) as u8);
    } else if b0 == 0xcb {
        lemma_r8_operand_has_index((b1 % 8) as u8);
    } else if b0 < 0x40 {
        lemma_low_quarter_encodes(b0, b1, b2);
    } else {
        lemma_high_quarter_encodes(b0, b1, b2);
    }
}

/// The encoding exists for every legal opcode of the 0x00..0x40
/// block.
#[verifier::rlimit(100)]
#[verifier::spinoff_prover]
proof fn lemma_low_quarter_encodes(b0: u8, b1: u8, b2: u8)
    requires
        b0 < 0x40,
    ensures
        !(spec_decode(b0, b1, b2) matches Opcode::Unknown { .. }) ==> spec_encode(
            spec_decode(b0, b1, b2),
        ) is Some,
{
}

/// The encoding exists for every legal opcode of the 0xc0..0x100
/// block (the 0xcb prefix aside).
#[verifier::rlimit(100)]
#[verifier::spinoff_prover]
proof fn lemma_high_quarter_encodes(b0: u8, b1: u8, b2: u8)
    requires
        0xc0 <= b0,
        b0 != 0xcb,
    ensures
        !(spec_decode(b0, b1, b2) matches Opcode::Unknown { .. }) ==> spec_encode(
            spec_decode(b0, b1, b2),
        ) is Some,
{
}

/// The operand table and the operand index map are inverses, operand
/// side first.
proof fn lemma_r8_operand_has_index(i: u8)
    requires
        i < 8,
    ensures
        spec_r8_index(spec_r8_operand(i)) == Option::Some(i),
{
}

} // verus!
