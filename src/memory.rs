use vstd::prelude::*;

use crate::gpu::{GPU, VRAM_BEGIN, VRAM_END, VRAM_SIZE};

verus! {

/// Size of the address space: every 16-bit address.
pub const MEMORY_SIZE: usize = 0x10000;

/// Whether `address` belongs to video memory.
pub open spec fn in_vram(address: int) -> bool {
    VRAM_BEGIN <= address <= VRAM_END
}

/// The offset in video memory of a bus address in the video range.
pub fn get_vram_address(address: u16) -> (r: usize)
    requires
        in_vram(address as int),
    ensures
        r == address - VRAM_BEGIN,
        r < VRAM_SIZE,
{
    address as usize - VRAM_BEGIN
}

/// The 16-bit address space: video addresses go to the video unit, every
/// other address to plain storage.
pub struct MemoryBus {
    pub memory: [u8; MEMORY_SIZE],
    pub gpu: GPU,
}

impl View for MemoryBus {
    type V = Seq<u8>;

    /// What a read at each address returns.
    open spec fn view(&self) -> Seq<u8> {
        Seq::new(
            MEMORY_SIZE as nat,
            |a: int|
                if in_vram(a) {
                    self.gpu.vram()[a - VRAM_BEGIN]
                } else {
                    self.memory@[a]
                },
        )
    }
}

/// What a write of `value` at `address` does: that address reads `value`
/// after it, no other address changes, and of the two stores only the one
/// that owns the address is touched.
pub open spec fn write_effect(pre: MemoryBus, post: MemoryBus, address: u16, value: u8) -> bool {
    &&& post@ == pre@.update(address as int, value)
    &&& in_vram(address as int) ==> post.memory == pre.memory && post.gpu.vram() == pre.gpu.vram().update(
        address - VRAM_BEGIN,
        value,
    )
    &&& !in_vram(address as int) ==> post.gpu == pre.gpu && post.memory@ == pre.memory@.update(
        address as int,
        value,
    )
    &&& pre.gpu.tiles_derived() ==> post.gpu.tiles_derived()
}

impl MemoryBus {
    /// The bus at power-on: every address reads zero.
    pub fn new() -> (r: MemoryBus)
        ensures
            r@ == Seq::new(MEMORY_SIZE as nat, |a: int| 0u8),
            r.gpu.tiles_derived(),
    {
        let r = MemoryBus { memory: [0u8; MEMORY_SIZE], gpu: GPU::new() };
        assert(r@ =~= Seq::new(MEMORY_SIZE as nat, |a: int| 0u8));
        r
    }

    pub fn read_byte(&self, address: u16) -> (r: u8)
        ensures
            r == self@[address as int],
    {
        match address as usize {
            VRAM_BEGIN..=VRAM_END => self.gpu.read_memory(get_vram_address(address)),
            _ => self.memory[address as usize],
        }
    }

    pub fn write_byte(&mut self, address: u16, value: u8)
        ensures
            write_effect(*old(self), *final(self), address, value),
    {
        proof {
            self.gpu.lemma_vram_len();
        }
        match address as usize {
            VRAM_BEGIN..=VRAM_END => self.gpu.write_memory(get_vram_address(address), value),
            _ => self.memory[address as usize] = value,
        }
        proof {
            self.gpu.lemma_vram_len();
        }
        assert(self@ =~= old(self)@.update(address as int, value));
    }

    /// Writes `bytes` into the address space from `start` on, as a loader
    /// does before execution begins.
    pub fn load(&mut self, start: u16, bytes: &[u8])
        requires
            start + bytes@.len() <= MEMORY_SIZE,
        ensures
            final(self)@ == Seq::new(
                MEMORY_SIZE as nat,
                |a: int|
                    if start <= a < start + bytes@.len() {
                        bytes@[a - start]
                    } else {
                        old(self)@[a]
                    },
            ),
            old(self).gpu.tiles_derived() ==> final(self).gpu.tiles_derived(),
    {
        let mut i: usize = 0;
        while i < bytes.len()
            invariant
                i <= bytes@.len(),
                start + bytes@.len() <= MEMORY_SIZE,
                self@ == Seq::new(
                    MEMORY_SIZE as nat,
                    |a: int|
                        if start <= a < start + i {
                            bytes@[a - start]
                        } else {
                            old(self)@[a]
                        },
                ),
                old(self).gpu.tiles_derived() ==> self.gpu.tiles_derived(),
            decreases bytes@.len() - i,
        {
            self.write_byte(start + i as u16, bytes[i]);
            i += 1;
            assert(self@ =~= Seq::new(
                MEMORY_SIZE as nat,
                |a: int|
                    if start <= a < start + i {
                        bytes@[a - start]
                    } else {
                        old(self)@[a]
                    },
            ));
        }
    }
}

/// A write inside the video range reads back through the bus, and plain
/// storage keeps what it held, both at that address and at the address equal
/// to its offset in video memory.
pub proof fn lemma_bus_isolation(pre: MemoryBus, post: MemoryBus, address: u16, value: u8)
    requires
        write_effect(pre, post, address, value),
        in_vram(address as int),
    ensures
        post@[address as int] == value,
        post.memory@[address as int] == pre.memory@[address as int],
        post.memory@[address - VRAM_BEGIN] == pre.memory@[address - VRAM_BEGIN],
        post@[address - VRAM_BEGIN] == pre@[address - VRAM_BEGIN],
{
}

} // verus!
