//! Instruction-execution core of an 8-bit Game-Boy-class CPU emulator:
//! register file and flags, instruction decoder, memory bus and the video
//! unit's tile cache, each with a verified contract.

mod cpu;
mod gpu;
mod instructions;
mod memory;
mod registers;
mod utils;

pub use cpu::{
    add_flags, add_value, arith_operand, cache_kept, execute_spec, fetched, lemma_call_then_ret,
    lemma_illegal_opcode_reported, lemma_push_pop, step_spec, CpuError, CpuState, CPU,
};
pub use gpu::{
    decode_row, empty_tile, shade, shade_index, Tile, TilePixelValue, GPU, TILE_COUNT,
    TILE_DATA_END, VRAM_BEGIN, VRAM_END, VRAM_SIZE,
};
pub use instructions::{
    arith_field, condition_field, pop_field, prefixed_entry, primary_entry, push_field,
    source_field, table_entry, target_field, ArithmeticTarget, Instruction, JumpType,
    LoadAFromSource, LoadByteSource, LoadByteTarget, LoadTargetFromA, LoadType, PopTarget,
    PushSource, PREFIX_BYTE,
};
pub use memory::{
    get_vram_address, in_vram, lemma_bus_isolation, write_effect, MemoryBus, MEMORY_SIZE,
};
pub use registers::{
    bit_of, flags_byte, flags_of_byte, lemma_byte_round_trip, lemma_flags_round_trip,
    lemma_pair_round_trip, FlagsRegister, Registers, CARRY_FLAG_BYTE_POSITION,
    HALF_CARRY_FLAG_BYTE_POSITION, SUBTRACT_FLAG_BYTE_POSITION, ZERO_FLAG_BYTE_POSITION,
};
pub use utils::{get_lsb, get_msb, get_u16, word_of};
