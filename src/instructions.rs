use vstd::prelude::*;

use crate::registers::FlagsRegister;

verus! {

/// The register operand of an 8-bit arithmetic instruction.
#[derive(Clone, Copy, Debug, PartialEq, Eq, Structural)]
pub enum ArithmeticTarget {
    A,
    B,
    C,
    D,
    E,
    F,
    H,
    L,
}

/// The condition under which a jump, call or return is taken.
#[derive(Clone, Copy, Debug, PartialEq, Eq, Structural)]
pub enum JumpType {
    NotZero,
    Zero,
    NotCarry,
    Carry,
    Always,
}

impl JumpType {
    /// Whether the condition holds under `flags`.
    pub open spec fn holds(&self, flags: FlagsRegister) -> bool {
        match self {
            JumpType::NotZero => !flags.zero,
            JumpType::Zero => flags.zero,
            JumpType::NotCarry => !flags.carry,
            JumpType::Carry => flags.carry,
            JumpType::Always => true,
        }
    }

    pub fn should_jump(&self, flags: &FlagsRegister) -> (r: bool)
        ensures
            r == self.holds(*flags),
    {
        match self {
            JumpType::NotZero => !flags.zero,
            JumpType::Zero => flags.zero,
            JumpType::NotCarry => !flags.carry,
            JumpType::Carry => flags.carry,
            JumpType::Always => true,
        }
    }
}

/// Where a byte load stores its value: a register, or the byte at the address in HL.
#[derive(Clone, Copy, Debug, PartialEq, Eq, Structural)]
pub enum LoadByteTarget {
    A,
    B,
    C,
    D,
    E,
    H,
    L,
    HLI,
}

/// Where a byte load takes its value from: a register, the byte after the
/// opcode, or the byte at the address in HL.
#[derive(Clone, Copy, Debug, PartialEq, Eq, Structural)]
pub enum LoadByteSource {
    A,
    B,
    C,
    D,
    E,
    H,
    L,
    D8,
    HLI,
}

/// The address that a store of the accumulator writes to.
#[derive(Clone, Copy, Debug, PartialEq, Eq, Structural)]
pub enum LoadTargetFromA {
    BC,
    DE,
    D16,
}

/// The address that a load into the accumulator reads from.
#[derive(Clone, Copy, Debug, PartialEq, Eq, Structural)]
pub enum LoadAFromSource {
    BC,
    DE,
    D16,
}

#[derive(Clone, Copy, Debug, PartialEq, Eq, Structural)]
pub enum LoadType {
    Byte(LoadByteTarget, LoadByteSource),
    FromA(LoadTargetFromA),
    ToA(LoadAFromSource),
}

#[derive(Clone, Copy, Debug, PartialEq, Eq, Structural)]
pub enum PushSource {
    BC,
    DE,
    HL,
    AF,
}

#[derive(Clone, Copy, Debug, PartialEq, Eq, Structural)]
pub enum PopTarget {
    BC,
    DE,
    HL,
    AF,
}

/// A decoded instruction: its kind and the operands it selects, no values.
#[derive(Clone, Copy, Debug, PartialEq, Eq, Structural)]
pub enum Instruction {
    ADD(ArithmeticTarget),
    JP(JumpType),
    LD(LoadType),
    PUSH(PushSource),
    POP(PopTarget),
    CALL(JumpType),
    RET(JumpType),
    NOP,
    HALT,
}

/// The byte that announces an opcode of the prefixed table.
pub const PREFIX_BYTE: u8 = 0xCB;

/// The register-or-memory operand that a 3-bit field of an opcode names, as a
/// load target (B, C, D, E, H, L, (HL), A).
pub open spec fn target_field(n: int) -> LoadByteTarget {
    if n == 0 {
        LoadByteTarget::B
    } else if n == 1 {
        LoadByteTarget::C
    } else if n == 2 {
        LoadByteTarget::D
    } else if n == 3 {
        LoadByteTarget::E
    } else if n == 4 {
        LoadByteTarget::H
    } else if n == 5 {
        LoadByteTarget::L
    } else if n == 6 {
        LoadByteTarget::HLI
    } else {
        LoadByteTarget::A
    }
}

/// The same 3-bit operand field read as a load source.
pub open spec fn source_field(n: int) -> LoadByteSource {
    if n == 0 {
        LoadByteSource::B
    } else if n == 1 {
        LoadByteSource::C
    } else if n == 2 {
        LoadByteSource::D
    } else if n == 3 {
        LoadByteSource::E
    } else if n == 4 {
        LoadByteSource::H
    } else if n == 5 {
        LoadByteSource::L
    } else if n == 6 {
        LoadByteSource::HLI
    } else {
        LoadByteSource::A
    }
}

/// The same 3-bit operand field read as a register of arithmetic; 6, which
/// names memory at HL, is none.
pub open spec fn arith_field(n: int) -> ArithmeticTarget {
    if n == 0 {
        ArithmeticTarget::B
    } else if n == 1 {
        ArithmeticTarget::C
    } else if n == 2 {
        ArithmeticTarget::D
    } else if n == 3 {
        ArithmeticTarget::E
    } else if n == 4 {
        ArithmeticTarget::H
    } else if n == 5 {
        ArithmeticTarget::L
    } else {
        ArithmeticTarget::A
    }
}

/// The condition that a 2-bit field of an opcode names.
pub open spec fn condition_field(n: int) -> JumpType {
    if n == 0 {
        JumpType::NotZero
    } else if n == 1 {
        JumpType::Zero
    } else if n == 2 {
        JumpType::NotCarry
    } else {
        JumpType::Carry
    }
}

pub open spec fn push_field(n: int) -> PushSource {
    if n == 0 {
        PushSource::BC
    } else if n == 1 {
        PushSource::DE
    } else if n == 2 {
        PushSource::HL
    } else {
        PushSource::AF
    }
}

pub open spec fn pop_field(n: int) -> PopTarget {
    if n == 0 {
        PopTarget::BC
    } else if n == 1 {
        PopTarget::DE
    } else if n == 2 {
        PopTarget::HL
    } else {
        PopTarget::AF
    }
}

/// The entry of the primary table for `op`. An opcode splits into the fields
/// x (bits 7-6), y (bits 5-3) and z (bits 2-0); the instructions of this core
/// sit where those fields place them, and every other byte has no entry.
pub open spec fn primary_entry(op: u8) -> Option<Instruction> {
    let x = op as int / 64;
    let y = (op as int / 8) % 8;
    let z = op as int % 8;
    if op == 0x00 {
        Some(Instruction::NOP)
    } else if op == 0x76 {
        Some(Instruction::HALT)
    } else if op == 0x02 {
        Some(Instruction::LD(LoadType::FromA(LoadTargetFromA::BC)))
    } else if op == 0x12 {
        Some(Instruction::LD(LoadType::FromA(LoadTargetFromA::DE)))
    } else if op == 0xEA {
        Some(Instruction::LD(LoadType::FromA(LoadTargetFromA::D16)))
    } else if op == 0x0A {
        Some(Instruction::LD(LoadType::ToA(LoadAFromSource::BC)))
    } else if op == 0x1A {
        Some(Instruction::LD(LoadType::ToA(LoadAFromSource::DE)))
    } else if op == 0xFA {
        Some(Instruction::LD(LoadType::ToA(LoadAFromSource::D16)))
    } else if x == 0 && z == 6 {
        Some(Instruction::LD(LoadType::Byte(target_field(y), LoadByteSource::D8)))
    } else if x == 1 {
        Some(Instruction::LD(LoadType::Byte(target_field(y), source_field(z))))
    } else if x == 2 && y == 0 && z != 6 {
        Some(Instruction::ADD(arith_field(z)))
    } else if op == 0xC3 {
        Some(Instruction::JP(JumpType::Always))
    } else if op == 0xCD {
        Some(Instruction::CALL(JumpType::Always))
    } else if op == 0xC9 {
        Some(Instruction::RET(JumpType::Always))
    } else if x == 3 && y < 4 && z == 0 {
        Some(Instruction::RET(condition_field(y)))
    } else if x == 3 && y < 4 && z == 2 {
        Some(Instruction::JP(condition_field(y)))
    } else if x == 3 && y < 4 && z == 4 {
        Some(Instruction::CALL(condition_field(y)))
    } else if x == 3 && y % 2 == 0 && z == 1 {
        Some(Instruction::POP(pop_field(y / 2)))
    } else if x == 3 && y % 2 == 0 && z == 5 {
        Some(Instruction::PUSH(push_field(y / 2)))
    } else {
        None
    }
}

/// The entry of the prefixed table for `op`: this core gives none of the
/// prefixed opcodes an entry yet.
pub open spec fn prefixed_entry(op: u8) -> Option<Instruction> {
    None
}

/// The entry for `op` in the table that `prefixed` selects.
pub open spec fn table_entry(op: u8, prefixed: bool) -> Option<Instruction> {
    if prefixed {
        prefixed_entry(op)
    } else {
        primary_entry(op)
    }
}

fn target_of_field(n: u8) -> (r: LoadByteTarget)
    requires
        n < 8,
    ensures
        r == target_field(n as int),
{
    match n {
        0 => LoadByteTarget::B,
        1 => LoadByteTarget::C,
        2 => LoadByteTarget::D,
        3 => LoadByteTarget::E,
        4 => LoadByteTarget::H,
        5 => LoadByteTarget::L,
        6 => LoadByteTarget::HLI,
        _ => LoadByteTarget::A,
    }
}

fn source_of_field(n: u8) -> (r: LoadByteSource)
    requires
        n < 8,
    ensures
        r == source_field(n as int),
{
    match n {
        0 => LoadByteSource::B,
        1 => LoadByteSource::C,
        2 => LoadByteSource::D,
        3 => LoadByteSource::E,
        4 => LoadByteSource::H,
        5 => LoadByteSource::L,
        6 => LoadByteSource::HLI,
        _ => LoadByteSource::A,
    }
}

fn arith_of_field(n: u8) -> (r: ArithmeticTarget)
    requires
        n < 8,
        n != 6,
    ensures
        r == arith_field(n as int),
{
    match n {
        0 => ArithmeticTarget::B,
        1 => ArithmeticTarget::C,
        2 => ArithmeticTarget::D,
        3 => ArithmeticTarget::E,
        4 => ArithmeticTarget::H,
        5 => ArithmeticTarget::L,
        _ => ArithmeticTarget::A,
    }
}

fn condition_of_field(n: u8) -> (r: JumpType)
    requires
        n < 4,
    ensures
        r == condition_field(n as int),
{
    match n {
        0 => JumpType::NotZero,
        1 => JumpType::Zero,
        2 => JumpType::NotCarry,
        _ => JumpType::Carry,
    }
}

impl Instruction {
    pub fn from_opcode(opcode: u8, prefixed: bool) -> (r: Option<Instruction>)
        ensures
            r == table_entry(opcode, prefixed),
    {
        if prefixed {
            Instruction::from_opcode_prefixed(opcode)
        } else {
            Instruction::from_opcode_not_prefixed(opcode)
        }
    }

    pub fn from_opcode_prefixed(opcode: u8) -> (r: Option<Instruction>)
        ensures
            r == prefixed_entry(opcode),
    {
        None
    }

    pub fn from_opcode_not_prefixed(opcode: u8) -> (r: Option<Instruction>)
        ensures
            r == primary_entry(opcode),
    {
        let y = (opcode >> 3) & 7;
        let z = opcode & 7;
        assert((opcode >> 3) & 7 == (opcode / 8) % 8 && opcode & 7 == opcode % 8) by (bit_vector);
        match opcode {
            0x00 => Some(Instruction::NOP),
            0x76 => Some(Instruction::HALT),
            0x02 => Some(Instruction::LD(LoadType::FromA(LoadTargetFromA::BC))),
            0x12 => Some(Instruction::LD(LoadType::FromA(LoadTargetFromA::DE))),
            0xEA => Some(Instruction::LD(LoadType::FromA(LoadTargetFromA::D16))),
            0x0A => Some(Instruction::LD(LoadType::ToA(LoadAFromSource::BC))),
            0x1A => Some(Instruction::LD(LoadType::ToA(LoadAFromSource::DE))),
            0xFA => Some(Instruction::LD(LoadType::ToA(LoadAFromSource::D16))),
            0x06 | 0x0E | 0x16 | 0x1E | 0x26 | 0x2E | 0x36 | 0x3E => Some(
                Instruction::LD(LoadType::Byte(target_of_field(y), LoadByteSource::D8)),
            ),
            0x40..=0x7F => Some(
                Instruction::LD(LoadType::Byte(target_of_field(y), source_of_field(z))),
            ),
            0x80..=0x85 | 0x87 => Some(Instruction::ADD(arith_of_field(z))),
            0xC3 => Some(Instruction::JP(JumpType::Always)),
            0xCD => Some(Instruction::CALL(JumpType::Always)),
            0xC9 => Some(Instruction::RET(JumpType::Always)),
            0xC0 | 0xC8 | 0xD0 | 0xD8 => Some(Instruction::RET(condition_of_field(y))),
            0xC2 | 0xCA | 0xD2 | 0xDA => Some(Instruction::JP(condition_of_field(y))),
            0xC4 | 0xCC | 0xD4 | 0xDC => Some(Instruction::CALL(condition_of_field(y))),
            0xC1 => Some(Instruction::POP(PopTarget::BC)),
            0xD1 => Some(Instruction::POP(PopTarget::DE)),
            0xE1 => Some(Instruction::POP(PopTarget::HL)),
            0xF1 => Some(Instruction::POP(PopTarget::AF)),
            0xC5 => Some(Instruction::PUSH(PushSource::BC)),
            0xD5 => Some(Instruction::PUSH(PushSource::DE)),
            0xE5 => Some(Instruction::PUSH(PushSource::HL)),
            0xF5 => Some(Instruction::PUSH(PushSource::AF)),
            _ => None,
        }
    }
}

} // verus!
