use vstd::prelude::*;

use crate::registers::bit_of;

verus! {

/// First address of video memory on the bus.
pub const VRAM_BEGIN: usize = 0x8000;

/// Last address of video memory on the bus (inclusive).
pub const VRAM_END: usize = 0x9FFF;

pub const VRAM_SIZE: usize = VRAM_END - VRAM_BEGIN + 1;

/// Offsets below this one hold tile data; the rest of video memory does not.
pub const TILE_DATA_END: usize = 0x1800;

pub const TILE_COUNT: usize = 384;

/// The shade of one decoded pixel, an opaque palette entry: `Black` where
/// neither plane bit is set, `Light` where only the high-plane bit is,
/// `Gray` where only the low-plane bit is, `White` where both are.
#[derive(Clone, Copy, Debug, PartialEq, Eq, Structural)]
pub enum TilePixelValue {
    White,
    Gray,
    Light,
    Black,
}

/// A tile: eight rows of eight pixels, leftmost pixel first.
pub type Tile = [[TilePixelValue; 8]; 8];

/// The shade of a pixel whose low-plane bit is `low` and high-plane bit `high`.
pub open spec fn shade(low: bool, high: bool) -> TilePixelValue {
    if high && low {
        TilePixelValue::White
    } else if high {
        TilePixelValue::Light
    } else if low {
        TilePixelValue::Gray
    } else {
        TilePixelValue::Black
    }
}

/// The palette index of each shade.
pub open spec fn shade_index(v: TilePixelValue) -> u8 {
    match v {
        TilePixelValue::Black => 0,
        TilePixelValue::Light => 1,
        TilePixelValue::Gray => 2,
        TilePixelValue::White => 3,
    }
}

/// The eight pixels of a tile row whose plane bytes are `low` and `high`;
/// bit 7 of each byte is the leftmost pixel.
pub open spec fn decode_row(low: u8, high: u8) -> Seq<TilePixelValue> {
    Seq::new(8, |c: int| shade(bit_of(low, (7 - c) as u8), bit_of(high, (7 - c) as u8)))
}

impl TilePixelValue {
    pub fn palette_index(&self) -> (r: u8)
        ensures
            r == shade_index(*self),
    {
        match self {
            TilePixelValue::Black => 0,
            TilePixelValue::Light => 1,
            TilePixelValue::Gray => 2,
            TilePixelValue::White => 3,
        }
    }
}

/// The tile that all-zero video memory decodes to.
pub fn empty_tile() -> (r: Tile)
    ensures
        forall|row: int, col: int|
            0 <= row < 8 && 0 <= col < 8 ==> #[trigger] r@[row]@[col] == TilePixelValue::Black,
{
    [[TilePixelValue::Black; 8]; 8]
}

/// Video memory and the tile cache derived from it.
pub struct GPU {
    memory: [u8; VRAM_SIZE],
    tiles: [Tile; TILE_COUNT],
}

impl GPU {
    /// The raw bytes of video memory.
    pub closed spec fn vram(&self) -> Seq<u8> {
        self.memory@
    }

    /// Row `row` of cached tile `tile`.
    pub closed spec fn tile_row(&self, tile: int, row: int) -> Seq<TilePixelValue> {
        self.tiles@[tile]@[row]@
    }

    /// Whether the cached row holds what its two source bytes decode to.
    pub open spec fn row_derived(&self, tile: int, row: int) -> bool {
        self.tile_row(tile, row) == decode_row(
            self.vram()[16 * tile + 2 * row],
            self.vram()[16 * tile + 2 * row + 1],
        )
    }

    /// Whether the whole tile cache is what video memory decodes to.
    pub open spec fn tiles_derived(&self) -> bool {
        forall|tile: int, row: int|
            0 <= tile < TILE_COUNT && 0 <= row < 8 ==> #[trigger] self.row_derived(tile, row)
    }

    pub proof fn lemma_vram_len(&self)
        ensures
            self.vram().len() == VRAM_SIZE,
            forall|t: int, r: int| #[trigger] self.tile_row(t, r).len() == 8,
    {
    }

    /// Video memory at power-on: zeroed, with the tile cache derived from it.
    pub fn new() -> (r: GPU)
        ensures
            r.vram() == Seq::new(VRAM_SIZE as nat, |i: int| 0u8),
            r.tiles_derived(),
    {
        let r = GPU { memory: [0u8; VRAM_SIZE], tiles: [empty_tile(); TILE_COUNT] };
        assert(r.vram() =~= Seq::new(VRAM_SIZE as nat, |i: int| 0u8));
        assert(forall|n: u8| !bit_of(0u8, n)) by {
            assert(forall|n: u8| (0u8 >> n) & 1 != 1) by (bit_vector);
        }
        assert forall|tile: int, row: int| 0 <= tile < TILE_COUNT && 0 <= row < 8 implies #[trigger] r.row_derived(
            tile,
            row,
        ) by {
            assert(r.tile_row(tile, row) =~= decode_row(0, 0));
        }
        r
    }

    pub fn read_memory(&self, address: usize) -> (r: u8)
        requires
            address < VRAM_SIZE,
        ensures
            r == self.vram()[address as int],
    {
        self.memory[address]
    }

    /// Stores a byte of video memory. A byte of tile data also recomputes the
    /// one tile row that it belongs to, from that row's two plane bytes (the
    /// low plane at the even offset, the high plane after it); the rest of the
    /// cache is left as it was.
    pub fn write_memory(&mut self, address: usize, value: u8)
        requires
            address < VRAM_SIZE,
        ensures
            final(self).vram() == old(self).vram().update(address as int, value),
            address < TILE_DATA_END ==> final(self).row_derived(
                address as int / 16,
                (address as int % 16) / 2,
            ),
            forall|tile: int, row: int|
                0 <= tile < TILE_COUNT && 0 <= row < 8 && !(address < TILE_DATA_END && tile == address as int / 16 && row == (
                    address as int % 16) / 2)
                    ==> #[trigger] final(self).tile_row(tile, row) == old(self).tile_row(tile, row),
            old(self).tiles_derived() ==> final(self).tiles_derived(),
    {
        let ghost pre = *self;
        self.memory[address] = value;
        if address >= TILE_DATA_END {
            assert forall|tile: int, row: int|
                0 <= tile < TILE_COUNT && 0 <= row < 8 && pre.row_derived(tile, row) implies #[trigger] self.row_derived(
                tile,
                row,
            ) by {
                assert(self.tile_row(tile, row) == pre.tile_row(tile, row));
            }
            return ;
        }
        let normalized_address = address - address % 2;
        let low = self.memory[normalized_address];
        let high = self.memory[normalized_address + 1];
        let tile_index = address / 16;
        let row_index = (address % 16) / 2;
        let mut row: [TilePixelValue; 8] = [TilePixelValue::Black; 8];
        let mut pixel_index: usize = 0;
        while pixel_index < 8
            invariant
                pixel_index <= 8,
                forall|c: int| 0 <= c < pixel_index ==> row@[c] == decode_row(low, high)[c],
            decreases 8 - pixel_index,
        {
            let shift = 7 - pixel_index as u8;
            let mask: u8 = 1u8 << shift;
            assert(shift < 8 ==> ((low & (1u8 << shift)) != 0 <==> (low >> shift) & 1 == 1)
                && ((high & (1u8 << shift)) != 0 <==> (high >> shift) & 1 == 1)) by (bit_vector);
            let value = match (low & mask != 0, high & mask != 0) {
                (true, true) => TilePixelValue::White,
                (true, false) => TilePixelValue::Gray,
                (false, true) => TilePixelValue::Light,
                (false, false) => TilePixelValue::Black,
            };
            row[pixel_index] = value;
            pixel_index += 1;
        }
        let mut tile = self.tiles[tile_index];
        tile[row_index] = row;
        self.tiles[tile_index] = tile;
        assert(self.tile_row(tile_index as int, row_index as int) =~= decode_row(low, high));
        assert forall|tile: int, row: int|
            0 <= tile < TILE_COUNT && 0 <= row < 8 && !(tile == tile_index && row == row_index)
                implies #[trigger] self.tile_row(tile, row) == pre.tile_row(tile, row) by {
            if tile != tile_index {
                assert(self.tiles@[tile] == pre.tiles@[tile]);
            } else {
                assert(self.tiles@[tile]@[row] == pre.tiles@[tile]@[row]);
            }
        }
        assert forall|tile: int, row: int|
            0 <= tile < TILE_COUNT && 0 <= row < 8 && pre.row_derived(tile, row) implies #[trigger] self.row_derived(
            tile,
            row,
        ) by {
            if !(tile == tile_index && row == row_index) {
                assert(self.tile_row(tile, row) == pre.tile_row(tile, row));
            }
        }
    }

    /// One pixel of the tile cache.
    pub fn pixel(&self, tile: usize, row: usize, col: usize) -> (r: TilePixelValue)
        requires
            tile < TILE_COUNT,
            row < 8,
            col < 8,
        ensures
            r == self.tile_row(tile as int, row as int)[col as int],
    {
        self.tiles[tile][row][col]
    }
}

} // verus!
