use vstd::prelude::*;

use crate::utils::{get_lsb, get_msb, get_u16, word_of};

verus! {

pub const ZERO_FLAG_BYTE_POSITION: u8 = 7;

pub const SUBTRACT_FLAG_BYTE_POSITION: u8 = 6;

pub const HALF_CARRY_FLAG_BYTE_POSITION: u8 = 5;

pub const CARRY_FLAG_BYTE_POSITION: u8 = 4;

/// The eight 8-bit registers. B/C, D/E and H/L also read as the 16-bit pairs
/// BC, DE and HL, high byte first; the pairs are computed, never stored.
#[derive(Clone, Copy, Debug, PartialEq, Eq, Structural)]
pub struct Registers {
    pub a: u8,
    pub b: u8,
    pub c: u8,
    pub d: u8,
    pub e: u8,
    pub f: FlagsRegister,
    pub h: u8,
    pub l: u8,
}

impl Registers {
    pub open spec fn bc(&self) -> u16 {
        word_of(self.b, self.c)
    }

    pub open spec fn de(&self) -> u16 {
        word_of(self.d, self.e)
    }

    pub open spec fn hl(&self) -> u16 {
        word_of(self.h, self.l)
    }

    /// These registers with BC set to `v`.
    pub open spec fn with_bc(self, v: u16) -> Registers {
        Registers { b: (v / 256) as u8, c: (v % 256) as u8, ..self }
    }

    /// These registers with DE set to `v`.
    pub open spec fn with_de(self, v: u16) -> Registers {
        Registers { d: (v / 256) as u8, e: (v % 256) as u8, ..self }
    }

    /// These registers with HL set to `v`.
    pub open spec fn with_hl(self, v: u16) -> Registers {
        Registers { h: (v / 256) as u8, l: (v % 256) as u8, ..self }
    }

    pub fn get_bc(&self) -> (r: u16)
        ensures
            r == self.bc(),
    {
        get_u16(self.b, self.c)
    }

    pub fn set_bc(&mut self, value: u16)
        ensures
            *final(self) == old(self).with_bc(value),
    {
        self.b = get_msb(&value);
        self.c = get_lsb(&value);
    }

    pub fn get_de(&self) -> (r: u16)
        ensures
            r == self.de(),
    {
        get_u16(self.d, self.e)
    }

    pub fn set_de(&mut self, value: u16)
        ensures
            *final(self) == old(self).with_de(value),
    {
        self.d = get_msb(&value);
        self.e = get_lsb(&value);
    }

    pub fn get_hl(&self) -> (r: u16)
        ensures
            r == self.hl(),
    {
        get_u16(self.h, self.l)
    }

    pub fn set_hl(&mut self, value: u16)
        ensures
            *final(self) == old(self).with_hl(value),
    {
        self.h = get_msb(&value);
        self.l = get_lsb(&value);
    }
}

/// Setting a register pair and reading it back gives the value that was set,
/// for each pair, and leaves the other pairs as they were; setting a pair to
/// its own value changes nothing.
pub proof fn lemma_pair_round_trip(regs: Registers, v: u16)
    ensures
        regs.with_bc(v).bc() == v,
        regs.with_de(v).de() == v,
        regs.with_hl(v).hl() == v,
        regs.with_bc(v).de() == regs.de() && regs.with_bc(v).hl() == regs.hl(),
        regs.with_de(v).bc() == regs.bc() && regs.with_de(v).hl() == regs.hl(),
        regs.with_hl(v).bc() == regs.bc() && regs.with_hl(v).de() == regs.de(),
        regs.with_bc(regs.bc()) == regs,
        regs.with_de(regs.de()) == regs,
        regs.with_hl(regs.hl()) == regs,
{
}

/// The four status flags of the CPU.
#[derive(Clone, Copy, Debug, PartialEq, Eq, Structural)]
pub struct FlagsRegister {
    pub zero: bool,
    pub subtract: bool,
    pub half_carry: bool,
    pub carry: bool,
}

/// The packed status byte: zero, subtract, half-carry and carry in bits 7, 6,
/// 5 and 4; the low nibble is zero.
pub open spec fn flags_byte(f: FlagsRegister) -> u8 {
    ((if f.zero { 0x80int } else { 0 }) + (if f.subtract { 0x40int } else { 0 }) + (if f.half_carry {
        0x20int
    } else {
        0
    }) + (if f.carry { 0x10int } else { 0 })) as u8
}

/// Bit `n` of `b`.
pub open spec fn bit_of(b: u8, n: u8) -> bool {
    (b >> n) & 1 == 1
}

/// The flags that a status byte holds; its low nibble is ignored.
pub open spec fn flags_of_byte(b: u8) -> FlagsRegister {
    FlagsRegister {
        zero: bit_of(b, ZERO_FLAG_BYTE_POSITION),
        subtract: bit_of(b, SUBTRACT_FLAG_BYTE_POSITION),
        half_carry: bit_of(b, HALF_CARRY_FLAG_BYTE_POSITION),
        carry: bit_of(b, CARRY_FLAG_BYTE_POSITION),
    }
}

impl From<FlagsRegister> for u8 {
    fn from(flags: FlagsRegister) -> (r: u8)
        ensures
            r == flags_byte(flags),
    {
        let z: u8 = if flags.zero { 1 } else { 0 };
        let n: u8 = if flags.subtract { 1 } else { 0 };
        let h: u8 = if flags.half_carry { 1 } else { 0 };
        let c: u8 = if flags.carry { 1 } else { 0 };
        assert(z <= 1 && n <= 1 && h <= 1 && c <= 1 ==> (z << 7u8 | n << 6u8 | h << 5u8 | c << 4u8)
            == z * 0x80 + n * 0x40 + h * 0x20 + c * 0x10) by (bit_vector);
        z << ZERO_FLAG_BYTE_POSITION | n << SUBTRACT_FLAG_BYTE_POSITION | h << HALF_CARRY_FLAG_BYTE_POSITION
            | c << CARRY_FLAG_BYTE_POSITION
    }
}

impl vstd::std_specs::convert::FromSpecImpl<FlagsRegister> for u8 {
    open spec fn obeys_from_spec() -> bool {
        true
    }

    open spec fn from_spec(v: FlagsRegister) -> u8 {
        flags_byte(v)
    }
}

impl From<u8> for FlagsRegister {
    fn from(byte: u8) -> (r: FlagsRegister)
        ensures
            r == flags_of_byte(byte),
    {
        let zero = ((byte >> ZERO_FLAG_BYTE_POSITION) & 0b1) != 0;
        let subtract = ((byte >> SUBTRACT_FLAG_BYTE_POSITION) & 0b1) != 0;
        let half_carry = ((byte >> HALF_CARRY_FLAG_BYTE_POSITION) & 0b1) != 0;
        let carry = ((byte >> CARRY_FLAG_BYTE_POSITION) & 0b1) != 0;
        assert(forall|n: u8| (byte >> n) & 1 != 0 <==> (byte >> n) & 1 == 1) by (bit_vector);
        FlagsRegister { zero, subtract, half_carry, carry }
    }
}

impl vstd::std_specs::convert::FromSpecImpl<u8> for FlagsRegister {
    open spec fn obeys_from_spec() -> bool {
        true
    }

    open spec fn from_spec(v: u8) -> FlagsRegister {
        flags_of_byte(v)
    }
}

/// Unpacking the packed status byte gives back the flags that were packed.
pub proof fn lemma_flags_round_trip(f: FlagsRegister)
    ensures
        flags_of_byte(flags_byte(f)) == f,
        flags_byte(f) % 16 == 0,
{
    let z: u8 = if f.zero { 1 } else { 0 };
    let n: u8 = if f.subtract { 1 } else { 0 };
    let h: u8 = if f.half_carry { 1 } else { 0 };
    let c: u8 = if f.carry { 1 } else { 0 };
    let b = flags_byte(f);
    assert(b == z * 0x80 + n * 0x40 + h * 0x20 + c * 0x10);
    assert(z <= 1 && n <= 1 && h <= 1 && c <= 1 && b == z * 0x80 + n * 0x40 + h * 0x20 + c * 0x10
        ==> ((b >> 7u8) & 1 == 1 <==> z == 1) && ((b >> 6u8) & 1 == 1 <==> n == 1) && ((b >> 5u8) & 1
        == 1 <==> h == 1) && ((b >> 4u8) & 1 == 1 <==> c == 1) && b % 16 == 0) by (bit_vector);
}

/// Packing the flags read from a byte gives that byte with its low nibble cleared.
pub proof fn lemma_byte_round_trip(b: u8)
    ensures
        flags_byte(flags_of_byte(b)) == b - b % 16,
{
    let f = flags_of_byte(b);
    let z: u8 = if f.zero { 1 } else { 0 };
    let n: u8 = if f.subtract { 1 } else { 0 };
    let h: u8 = if f.half_carry { 1 } else { 0 };
    let c: u8 = if f.carry { 1 } else { 0 };
    assert((b >> 7u8) & 1 <= 1 && (b >> 6u8) & 1 <= 1 && (b >> 5u8) & 1 <= 1 && (b >> 4u8) & 1 <= 1)
        by (bit_vector);
    assert(z == (b >> 7u8) & 1 && n == (b >> 6u8) & 1 && h == (b >> 5u8) & 1 && c == (b >> 4u8) & 1
        ==> z * 0x80 + n * 0x40 + h * 0x20 + c * 0x10 == b - b % 16) by (bit_vector);
}

} // verus!
