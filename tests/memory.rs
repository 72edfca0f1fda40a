use gameboy::{empty_tile, get_vram_address, MemoryBus, TilePixelValue, GPU};

#[test]
fn tile_row_decode_leftmost_pixel() {
    let mut gpu = GPU::new();
    gpu.write_memory(0, 0b1000_0000);
    gpu.write_memory(1, 0b1000_0000);
    assert_eq!(gpu.pixel(0, 0, 0), TilePixelValue::White);
    for col in 1..8 {
        assert_eq!(gpu.pixel(0, 0, col), TilePixelValue::Black);
    }
}

#[test]
fn tile_row_decode_shade_mapping() {
    let mut gpu = GPU::new();
    // Tile 2, row 3: offsets 0x26 (low plane) and 0x27 (high plane).
    gpu.write_memory(0x27, 0b1100_0000);
    gpu.write_memory(0x26, 0b1010_0001);
    let row: Vec<u8> = (0..8).map(|c| gpu.pixel(2, 3, c).palette_index()).collect();
    assert_eq!(row, vec![3, 1, 2, 0, 0, 0, 0, 2]);
    assert_eq!(gpu.pixel(2, 3, 1), TilePixelValue::Light);
    assert_eq!(gpu.pixel(2, 3, 2), TilePixelValue::Gray);
    assert_eq!(gpu.pixel(2, 2, 0), TilePixelValue::Black);
    assert_eq!(gpu.pixel(2, 4, 0), TilePixelValue::Black);
}

#[test]
fn palette_indices() {
    assert_eq!(TilePixelValue::Black.palette_index(), 0);
    assert_eq!(TilePixelValue::Light.palette_index(), 1);
    assert_eq!(TilePixelValue::Gray.palette_index(), 2);
    assert_eq!(TilePixelValue::White.palette_index(), 3);
}

#[test]
fn write_past_tile_data_leaves_cache() {
    let mut gpu = GPU::new();
    gpu.write_memory(0x1800, 0xFF);
    gpu.write_memory(0x17FE, 0x00);
    assert_eq!(gpu.read_memory(0x1800), 0xFF);
    assert_eq!(gpu.pixel(383, 7, 0), TilePixelValue::Black);
    gpu.write_memory(0x17FF, 0xFF);
    assert_eq!(gpu.pixel(383, 7, 0), TilePixelValue::Light);
}

#[test]
fn empty_tile_is_blank() {
    let tile = empty_tile();
    for row in tile.iter() {
        for pixel in row.iter() {
            assert_eq!(*pixel, TilePixelValue::Black);
        }
    }
}

#[test]
fn bus_isolation() {
    let mut bus = MemoryBus::new();
    bus.write_byte(0x8005, 0xAB);
    assert_eq!(bus.read_byte(0x8005), 0xAB);
    assert_eq!(bus.gpu.read_memory(5), 0xAB);
    assert_eq!(bus.read_byte(0x0005), 0);
    assert_eq!(bus.memory[0x8005], 0);
    assert_eq!(bus.memory[0x0005], 0);
    bus.write_byte(0x0005, 0x11);
    assert_eq!(bus.read_byte(0x8005), 0xAB);
    assert_eq!(bus.gpu.read_memory(5), 0xAB);
}

#[test]
fn bus_video_range_boundaries() {
    let mut bus = MemoryBus::new();
    bus.write_byte(0x7FFF, 1);
    bus.write_byte(0x8000, 2);
    bus.write_byte(0x9FFF, 3);
    bus.write_byte(0xA000, 4);
    bus.write_byte(0xFFFF, 5);
    assert_eq!(bus.memory[0x7FFF], 1);
    assert_eq!(bus.gpu.read_memory(0), 2);
    assert_eq!(bus.gpu.read_memory(0x1FFF), 3);
    assert_eq!(bus.memory[0x9FFF], 0);
    assert_eq!(bus.memory[0xA000], 4);
    assert_eq!(bus.memory[0xFFFF], 5);
    for (address, value) in [(0x7FFF, 1), (0x8000, 2), (0x9FFF, 3), (0xA000, 4), (0xFFFF, 5)] {
        assert_eq!(bus.read_byte(address), value);
    }
    assert_eq!(get_vram_address(0x8000), 0);
    assert_eq!(get_vram_address(0x9FFF), 0x1FFF);
}

#[test]
fn bus_write_updates_tiles() {
    let mut bus = MemoryBus::new();
    bus.write_byte(0x8010, 0x01);
    assert_eq!(bus.gpu.pixel(1, 0, 7), TilePixelValue::Gray);
    assert_eq!(bus.gpu.pixel(1, 0, 6), TilePixelValue::Black);
}

#[test]
fn bulk_load() {
    let mut bus = MemoryBus::new();
    bus.load(0x7FFE, &[1, 2, 3, 4]);
    assert_eq!(bus.read_byte(0x7FFD), 0);
    assert_eq!(bus.read_byte(0x7FFE), 1);
    assert_eq!(bus.read_byte(0x7FFF), 2);
    assert_eq!(bus.read_byte(0x8000), 3);
    assert_eq!(bus.read_byte(0x8001), 4);
    assert_eq!(bus.read_byte(0x8002), 0);
    assert_eq!(bus.gpu.read_memory(1), 4);
    bus.load(0xFFFE, &[9, 8]);
    assert_eq!(bus.read_byte(0xFFFF), 8);
    bus.load(0x1234, &[]);
    assert_eq!(bus.read_byte(0x1234), 0);
}
