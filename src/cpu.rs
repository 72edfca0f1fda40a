use vstd::prelude::*;

use crate::instructions::{
    table_entry, ArithmeticTarget, Instruction, JumpType, LoadByteSource, LoadByteTarget,
    LoadType, PopTarget, PushSource, PREFIX_BYTE,
};
use crate::memory::{MemoryBus, MEMORY_SIZE};
use crate::registers::{flags_byte, flags_of_byte, FlagsRegister, Registers};
use crate::utils::{get_lsb, get_msb, get_u16, word_of};

verus! {

/// A condition that `step` reports instead of executing an instruction.
#[derive(Clone, Copy, Debug, PartialEq, Eq, Structural)]
pub enum CpuError {
    /// The byte at `address` (or, when `prefixed`, the byte after the prefix)
    /// has no entry in its decode table.
    IllegalOpcode { address: u16, opcode: u8, prefixed: bool },
    /// The instruction at `address` decoded, but this core gives it no
    /// semantics yet.
    Unimplemented { address: u16, instruction: Instruction },
}

/// The CPU as the contracts see it: registers, pc, sp, what each address of
/// the bus reads, and whether it is halted.
pub struct CpuState {
    pub registers: Registers,
    pub pc: u16,
    pub sp: u16,
    pub memory: Seq<u8>,
    pub halted: bool,
}

/// The 8-bit sum that ADD leaves in the accumulator.
pub open spec fn add_value(a: u8, v: u8) -> u8 {
    ((a + v) % 256) as u8
}

/// The flags that ADD leaves: zero from the result, subtract cleared,
/// half-carry on a carry out of bit 3, carry on a carry out of bit 7.
pub open spec fn add_flags(a: u8, v: u8) -> FlagsRegister {
    FlagsRegister {
        zero: add_value(a, v) == 0,
        subtract: false,
        half_carry: a % 16 + v % 16 > 15,
        carry: a + v > 255,
    }
}

/// The register value that ADD adds; F has no ADD semantics here.
pub open spec fn arith_operand(regs: Registers, t: ArithmeticTarget) -> Option<u8> {
    match t {
        ArithmeticTarget::A => Some(regs.a),
        ArithmeticTarget::B => Some(regs.b),
        ArithmeticTarget::C => Some(regs.c),
        ArithmeticTarget::D => Some(regs.d),
        ArithmeticTarget::E => Some(regs.e),
        ArithmeticTarget::H => Some(regs.h),
        ArithmeticTarget::L => Some(regs.l),
        ArithmeticTarget::F => None,
    }
}

impl CpuState {
    /// The byte after the opcode.
    pub open spec fn next_byte(self) -> u8 {
        self.memory[self.pc.wrapping_add(1) as int]
    }

    /// The little-endian word in the two bytes after the opcode.
    pub open spec fn next_word(self) -> u16 {
        word_of(
            self.memory[self.pc.wrapping_add(2) as int],
            self.memory[self.pc.wrapping_add(1) as int],
        )
    }

    /// This state after pushing `v`: its high byte at sp - 1, its low byte at
    /// sp - 2, and sp lowered by two.
    pub open spec fn pushed(self, v: u16) -> CpuState {
        let hi_at = self.sp.wrapping_sub(1);
        let lo_at = hi_at.wrapping_sub(1);
        CpuState {
            sp: lo_at,
            memory: self.memory.update(hi_at as int, (v / 256) as u8).update(
                lo_at as int,
                (v % 256) as u8,
            ),
            ..self
        }
    }

    /// The word that a pop reads: low byte at sp, high byte at sp + 1.
    pub open spec fn popped_value(self) -> u16 {
        word_of(self.memory[self.sp.wrapping_add(1) as int], self.memory[self.sp as int])
    }

    /// This state after a pop: sp raised by two.
    pub open spec fn popped(self) -> CpuState {
        CpuState { sp: self.sp.wrapping_add(2), ..self }
    }

    /// The value that a byte load reads.
    pub open spec fn byte_source(self, src: LoadByteSource) -> u8 {
        match src {
            LoadByteSource::A => self.registers.a,
            LoadByteSource::B => self.registers.b,
            LoadByteSource::C => self.registers.c,
            LoadByteSource::D => self.registers.d,
            LoadByteSource::E => self.registers.e,
            LoadByteSource::H => self.registers.h,
            LoadByteSource::L => self.registers.l,
            LoadByteSource::D8 => self.next_byte(),
            LoadByteSource::HLI => self.memory[self.registers.hl() as int],
        }
    }

    /// This state after a byte load stores `v` in `t`.
    pub open spec fn store_byte(self, t: LoadByteTarget, v: u8) -> CpuState {
        let r = self.registers;
        match t {
            LoadByteTarget::A => CpuState { registers: Registers { a: v, ..r }, ..self },
            LoadByteTarget::B => CpuState { registers: Registers { b: v, ..r }, ..self },
            LoadByteTarget::C => CpuState { registers: Registers { c: v, ..r }, ..self },
            LoadByteTarget::D => CpuState { registers: Registers { d: v, ..r }, ..self },
            LoadByteTarget::E => CpuState { registers: Registers { e: v, ..r }, ..self },
            LoadByteTarget::H => CpuState { registers: Registers { h: v, ..r }, ..self },
            LoadByteTarget::L => CpuState { registers: Registers { l: v, ..r }, ..self },
            LoadByteTarget::HLI => CpuState {
                memory: self.memory.update(r.hl() as int, v),
                ..self
            },
        }
    }

    /// The word that PUSH stores; AF is the accumulator over the packed flags.
    pub open spec fn push_value(self, src: PushSource) -> u16 {
        match src {
            PushSource::BC => self.registers.bc(),
            PushSource::DE => self.registers.de(),
            PushSource::HL => self.registers.hl(),
            PushSource::AF => word_of(self.registers.a, flags_byte(self.registers.f)),
        }
    }

    /// This state after POP stores `v` in `t`; for AF the high byte goes to
    /// the accumulator and the low byte to the flags.
    pub open spec fn with_pair(self, t: PopTarget, v: u16) -> CpuState {
        let r = self.registers;
        let regs = match t {
            PopTarget::BC => r.with_bc(v),
            PopTarget::DE => r.with_de(v),
            PopTarget::HL => r.with_hl(v),
            PopTarget::AF => Registers { a: (v / 256) as u8, f: flags_of_byte((v % 256) as u8), ..r },
        };
        CpuState { registers: regs, ..self }
    }
}

/// What executing `i` in state `s` does: the state after it and the next pc,
/// or the condition reported instead (the state then stays as it was).
pub open spec fn execute_spec(s: CpuState, i: Instruction) -> (CpuState, Result<u16, CpuError>) {
    let unimplemented = (s, Err(CpuError::Unimplemented { address: s.pc, instruction: i }));
    if s.halted {
        (s, Ok(s.pc))
    } else {
        match i {
            Instruction::ADD(t) => match arith_operand(s.registers, t) {
                Some(v) => {
                    let a = s.registers.a;
                    (
                        CpuState {
                            registers: Registers { a: add_value(a, v), f: add_flags(a, v), ..s.registers },
                            ..s
                        },
                        Ok(s.pc.wrapping_add(1)),
                    )
                },
                None => unimplemented,
            },
            Instruction::JP(j) => (
                s,
                Ok(
                    if j.holds(s.registers.f) {
                        s.next_word()
                    } else {
                        s.pc.wrapping_add(3)
                    },
                ),
            ),
            Instruction::LD(LoadType::Byte(t, src)) => (
                s.store_byte(t, s.byte_source(src)),
                Ok(
                    if src is D8 {
                        s.pc.wrapping_add(2)
                    } else {
                        s.pc.wrapping_add(1)
                    },
                ),
            ),
            Instruction::LD(_) => unimplemented,
            Instruction::PUSH(src) => (s.pushed(s.push_value(src)), Ok(s.pc.wrapping_add(1))),
            Instruction::POP(t) => (s.popped().with_pair(t, s.popped_value()), Ok(s.pc.wrapping_add(1))),
            Instruction::CALL(j) => if j.holds(s.registers.f) {
                let after = s.pushed(s.pc.wrapping_add(3));
                (after, Ok(after.next_word()))
            } else {
                (s, Ok(s.pc.wrapping_add(3)))
            },
            Instruction::RET(j) => if j.holds(s.registers.f) {
                (s.popped(), Ok(s.popped_value()))
            } else {
                (s, Ok(s.pc.wrapping_add(1)))
            },
            Instruction::NOP => (s, Ok(s.pc.wrapping_add(1))),
            Instruction::HALT => (CpuState { halted: true, ..s }, Ok(s.pc)),
        }
    }
}

/// The opcode and table that the fetch at pc selects: the byte at pc, or the
/// byte after it when the byte at pc is the prefix.
pub open spec fn fetched(s: CpuState) -> (u8, bool) {
    let first = s.memory[s.pc as int];
    if first == PREFIX_BYTE {
        (s.memory[s.pc.wrapping_add(1) as int], true)
    } else {
        (first, false)
    }
}

/// What one step does in state `s`: nothing while halted; else fetch and
/// decode, report an opcode without a table entry, or execute the
/// instruction and move pc to where it says.
pub open spec fn step_spec(s: CpuState) -> (CpuState, Result<u16, CpuError>) {
    if s.halted {
        (s, Ok(s.pc))
    } else {
        let (op, prefixed) = fetched(s);
        match table_entry(op, prefixed) {
            None => (s, Err(CpuError::IllegalOpcode { address: s.pc, opcode: op, prefixed })),
            Some(i) => {
                let (after, r) = execute_spec(s, i);
                match r {
                    Ok(next) => (CpuState { pc: next, ..after }, Ok(next)),
                    Err(e) => (after, Err(e)),
                }
            },
        }
    }
}

/// The execution engine: registers, pc, sp, the bus, and the halted state.
pub struct CPU {
    pub registers: Registers,
    pub pc: u16,
    pub sp: u16,
    pub bus: MemoryBus,
    pub is_halted: bool,
}

impl View for CPU {
    type V = CpuState;

    open spec fn view(&self) -> CpuState {
        CpuState {
            registers: self.registers,
            pc: self.pc,
            sp: self.sp,
            memory: self.bus@,
            halted: self.is_halted,
        }
    }
}

/// Whether the tile cache, where it was derived from video memory before, still is.
pub open spec fn cache_kept(pre: CPU, post: CPU) -> bool {
    pre.bus.gpu.tiles_derived() ==> post.bus.gpu.tiles_derived()
}

impl CPU {
    pub fn read_next_byte(&self) -> (r: u8)
        ensures
            r == self@.next_byte(),
    {
        self.bus.read_byte(self.pc.wrapping_add(1))
    }

    pub fn read_next_word(&self) -> (r: u16)
        ensures
            r == self@.next_word(),
    {
        let least_significant_byte = self.bus.read_byte(self.pc.wrapping_add(1));
        let most_significant_byte = self.bus.read_byte(self.pc.wrapping_add(2));
        get_u16(most_significant_byte, least_significant_byte)
    }

    /// Adds `value` to the accumulator and sets the flags from the sum;
    /// returns the sum, which the caller stores.
    pub fn add(&mut self, value: u8) -> (r: u8)
        ensures
            r == add_value(old(self).registers.a, value),
            final(self).registers == (Registers {
                f: add_flags(old(self).registers.a, value),
                ..old(self).registers
            }),
            final(self).pc == old(self).pc,
            final(self).sp == old(self).sp,
            final(self).bus == old(self).bus,
            final(self).is_halted == old(self).is_halted,
    {
        let a = self.registers.a;
        let sum: u16 = a as u16 + value as u16;
        let new_value = a.wrapping_add(value);
        self.registers.f.zero = new_value == 0;
        self.registers.f.subtract = false;
        self.registers.f.carry = sum > 0xFF;
        assert((a & 0xF) == a % 16 && (value & 0xF) == value % 16) by (bit_vector);
        // Half carry: the low nibbles of the two operands sum past 0xF.
        self.registers.f.half_carry = (a & 0xF) + (value & 0xF) > 0xF;
        new_value
    }

    /// The next pc of a jump: the immediate word when `should_jump`, else
    /// the instruction after the three bytes of this one.
    pub fn jump(&mut self, should_jump: bool) -> (r: u16)
        ensures
            r == if should_jump {
                old(self)@.next_word()
            } else {
                old(self).pc.wrapping_add(3)
            },
            *final(self) == *old(self),
    {
        if should_jump {
            self.read_next_word()
        } else {
            self.pc.wrapping_add(3)
        }
    }

    pub fn push(&mut self, value: u16)
        ensures
            final(self)@ == old(self)@.pushed(value),
            cache_kept(*old(self), *final(self)),
    {
        self.sp = self.sp.wrapping_sub(1);
        self.bus.write_byte(self.sp, get_msb(&value));
        self.sp = self.sp.wrapping_sub(1);
        self.bus.write_byte(self.sp, get_lsb(&value));
        assert(self@ == old(self)@.pushed(value));
    }

    pub fn pop(&mut self) -> (r: u16)
        ensures
            r == old(self)@.popped_value(),
            final(self)@ == old(self)@.popped(),
            final(self).bus == old(self).bus,
    {
        let least_significant_byte = self.bus.read_byte(self.sp);
        self.sp = self.sp.wrapping_add(1);
        let most_significant_byte = self.bus.read_byte(self.sp);
        self.sp = self.sp.wrapping_add(1);
        get_u16(most_significant_byte, least_significant_byte)
    }

    /// A call: when `should_jump`, pushes the address after this instruction
    /// and returns the immediate word as the next pc; else returns that address.
    pub fn call(&mut self, should_jump: bool) -> (r: u16)
        ensures
            should_jump ==> final(self)@ == old(self)@.pushed(old(self).pc.wrapping_add(3)) && r
                == final(self)@.next_word(),
            !should_jump ==> *final(self) == *old(self) && r == old(self).pc.wrapping_add(3),
            cache_kept(*old(self), *final(self)),
    {
        let next_pc = self.pc.wrapping_add(3);
        if should_jump {
            self.push(next_pc);
            self.read_next_word()
        } else {
            next_pc
        }
    }

    /// A return: when `should_jump`, pops the next pc; else the next pc is
    /// the instruction after this one.
    pub fn return_(&mut self, should_jump: bool) -> (r: u16)
        ensures
            should_jump ==> final(self)@ == old(self)@.popped() && r == old(self)@.popped_value(),
            !should_jump ==> *final(self) == *old(self) && r == old(self).pc.wrapping_add(1),
            final(self).bus == old(self).bus,
    {
        if should_jump {
            self.pop()
        } else {
            self.pc.wrapping_add(1)
        }
    }

    /// The CPU at power-on: registers, flags, pc and sp zero, every address
    /// of the bus zero, running.
    pub fn new() -> (r: CPU)
        ensures
            r@ == (CpuState {
                registers: Registers {
                    a: 0,
                    b: 0,
                    c: 0,
                    d: 0,
                    e: 0,
                    f: FlagsRegister { zero: false, subtract: false, half_carry: false, carry: false },
                    h: 0,
                    l: 0,
                },
                pc: 0,
                sp: 0,
                memory: Seq::new(MEMORY_SIZE as nat, |a: int| 0u8),
                halted: false,
            }),
            r.bus.gpu.tiles_derived(),
    {
        CPU {
            registers: Registers {
                a: 0,
                b: 0,
                c: 0,
                d: 0,
                e: 0,
                f: FlagsRegister { zero: false, subtract: false, half_carry: false, carry: false },
                h: 0,
                l: 0,
            },
            pc: 0,
            sp: 0,
            bus: MemoryBus::new(),
            is_halted: false,
        }
    }

    /// Looks `instruction_byte` up in the table that `prefixed` selects; a
    /// byte without an entry is reported with the address of the instruction.
    pub fn decode(&self, instruction_byte: u8, prefixed: bool) -> (r: Result<Instruction, CpuError>)
        ensures
            r == match table_entry(instruction_byte, prefixed) {
                Some(i) => Ok(i),
                None => Err(
                    CpuError::IllegalOpcode { address: self.pc, opcode: instruction_byte, prefixed },
                ),
            },
    {
        match Instruction::from_opcode(instruction_byte, prefixed) {
            Some(instruction) => Ok(instruction),
            None => Err(CpuError::IllegalOpcode { address: self.pc, opcode: instruction_byte, prefixed }),
        }
    }

    /// Fetches, decodes and executes the instruction at pc, and moves pc to
    /// the next one; while halted it does nothing. Returns the new pc, or the
    /// condition that stopped the instruction, with the state unchanged.
    pub fn step(&mut self) -> (r: Result<u16, CpuError>)
        ensures
            (final(self)@, r) == step_spec(old(self)@),
            cache_kept(*old(self), *final(self)),
    {
        if self.is_halted {
            return Ok(self.pc);
        }
        let mut instruction_byte = self.bus.read_byte(self.pc);
        let prefixed = instruction_byte == PREFIX_BYTE;
        if prefixed {
            instruction_byte = self.bus.read_byte(self.pc.wrapping_add(1));
        }
        let instruction = match self.decode(instruction_byte, prefixed) {
            Ok(instruction) => instruction,
            Err(e) => return Err(e),
        };
        match self.execute(instruction) {
            Ok(next_pc) => {
                self.pc = next_pc;
                Ok(next_pc)
            },
            Err(e) => Err(e),
        }
    }

    /// Executes `instruction` and returns the next pc, which the caller
    /// assigns; an instruction without semantics here is reported and changes
    /// nothing.
    pub fn execute(&mut self, instruction: Instruction) -> (r: Result<u16, CpuError>)
        ensures
            (final(self)@, r) == execute_spec(old(self)@, instruction),
            cache_kept(*old(self), *final(self)),
    {
        if self.is_halted {
            return Ok(self.pc);
        }
        let unimplemented = CpuError::Unimplemented { address: self.pc, instruction };
        match instruction {
            Instruction::ADD(target) => {
                let value = match target {
                    ArithmeticTarget::A => self.registers.a,
                    ArithmeticTarget::B => self.registers.b,
                    ArithmeticTarget::C => self.registers.c,
                    ArithmeticTarget::D => self.registers.d,
                    ArithmeticTarget::E => self.registers.e,
                    ArithmeticTarget::H => self.registers.h,
                    ArithmeticTarget::L => self.registers.l,
                    ArithmeticTarget::F => return Err(unimplemented),
                };
                let new_value = self.add(value);
                self.registers.a = new_value;
                Ok(self.pc.wrapping_add(1))
            },
            Instruction::JP(jump_type) => {
                let should_jump = jump_type.should_jump(&self.registers.f);
                Ok(self.jump(should_jump))
            },
            Instruction::LD(LoadType::Byte(target, source)) => {
                let source_value = match source {
                    LoadByteSource::A => self.registers.a,
                    LoadByteSource::B => self.registers.b,
                    LoadByteSource::C => self.registers.c,
                    LoadByteSource::D => self.registers.d,
                    LoadByteSource::E => self.registers.e,
                    LoadByteSource::H => self.registers.h,
                    LoadByteSource::L => self.registers.l,
                    LoadByteSource::D8 => self.read_next_byte(),
                    LoadByteSource::HLI => self.bus.read_byte(self.registers.get_hl()),
                };
                match target {
                    LoadByteTarget::A => self.registers.a = source_value,
                    LoadByteTarget::B => self.registers.b = source_value,
                    LoadByteTarget::C => self.registers.c = source_value,
                    LoadByteTarget::D => self.registers.d = source_value,
                    LoadByteTarget::E => self.registers.e = source_value,
                    LoadByteTarget::H => self.registers.h = source_value,
                    LoadByteTarget::L => self.registers.l = source_value,
                    LoadByteTarget::HLI => {
                        let address = self.registers.get_hl();
                        self.bus.write_byte(address, source_value);
                    },
                }
                match source {
                    LoadByteSource::D8 => Ok(self.pc.wrapping_add(2)),
                    _ => Ok(self.pc.wrapping_add(1)),
                }
            },
            Instruction::LD(_) => Err(unimplemented),
            Instruction::PUSH(source) => {
                let source_value = match source {
                    PushSource::AF => {
                        let least_significant_byte = u8::from(self.registers.f);
                        let most_significant_byte = self.registers.a;
                        get_u16(most_significant_byte, least_significant_byte)
                    },
                    PushSource::BC => self.registers.get_bc(),
                    PushSource::DE => self.registers.get_de(),
                    PushSource::HL => self.registers.get_hl(),
                };
                self.push(source_value);
                Ok(self.pc.wrapping_add(1))
            },
            Instruction::POP(target) => {
                let value = self.pop();
                match target {
                    PopTarget::AF => {
                        let least_significant_byte = get_lsb(&value);
                        let most_significant_byte = get_msb(&value);
                        self.registers.a = most_significant_byte;
                        self.registers.f = FlagsRegister::from(least_significant_byte);
                    },
                    PopTarget::BC => self.registers.set_bc(value),
                    PopTarget::DE => self.registers.set_de(value),
                    PopTarget::HL => self.registers.set_hl(value),
                }
                Ok(self.pc.wrapping_add(1))
            },
            Instruction::CALL(jump_type) => {
                let should_jump = jump_type.should_jump(&self.registers.f);
                Ok(self.call(should_jump))
            },
            Instruction::RET(jump_type) => {
                let should_jump = jump_type.should_jump(&self.registers.f);
                Ok(self.return_(should_jump))
            },
            Instruction::NOP => Ok(self.pc.wrapping_add(1)),
            Instruction::HALT => {
                self.is_halted = true;
                Ok(self.pc)
            },
        }
    }
}

/// Pushing a word and popping it back gives that word, and leaves sp,
/// registers, pc and the halted state as they were.
pub proof fn lemma_push_pop(s: CpuState, v: u16)
    requires
        s.memory.len() == MEMORY_SIZE,
    ensures
        s.pushed(v).popped_value() == v,
        s.pushed(v).popped().sp == s.sp,
        s.pushed(v).popped().registers == s.registers,
        s.pushed(v).popped().pc == s.pc,
        s.pushed(v).popped().halted == s.halted,
{
}

/// A taken CALL followed by a taken RET of any condition comes back to the
/// instruction after the CALL, with sp as it was before the CALL.
pub proof fn lemma_call_then_ret(s: CpuState, call: JumpType, ret: JumpType)
    requires
        s.memory.len() == MEMORY_SIZE,
        !s.halted,
        call.holds(s.registers.f),
        ret.holds(s.registers.f),
    ensures
        ({
            let (called, target) = execute_spec(s, Instruction::CALL(call));
            let at_target = CpuState { pc: target->Ok_0, ..called };
            let (returned, back) = execute_spec(at_target, Instruction::RET(ret));
            &&& target is Ok
            &&& back == Ok::<u16, CpuError>(s.pc.wrapping_add(3))
            &&& returned.sp == s.sp
            &&& returned.registers == s.registers
        }),
{
    lemma_push_pop(s, s.pc.wrapping_add(3));
}

/// A step on an opcode without a table entry reports that opcode, whether it
/// was prefixed, and the address of the instruction, and changes nothing.
pub proof fn lemma_illegal_opcode_reported(s: CpuState)
    requires
        !s.halted,
        table_entry(fetched(s).0, fetched(s).1) is None,
    ensures
        step_spec(s) == (s, Err::<u16, CpuError>(
            CpuError::IllegalOpcode { address: s.pc, opcode: fetched(s).0, prefixed: fetched(s).1 },
        )),
{
}

} // verus!
