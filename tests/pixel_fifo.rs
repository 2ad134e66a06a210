use gb_core::pixel_fifo::{BgPixelFifo, SpritePixelFifo, TileCounter};
use gb_core::ppu::{Pixel, PpuState};
use gb_core::ppu_registers::{OamEntry, OamEntryFlags};

#[test]
fn bg_fetcher_pushes_a_row_after_four_steps() {
    let mut ppu = PpuState::new();
    ppu.bg_map_1[0] = 2;
    ppu.tile_data[32] = 0x80;
    ppu.tile_data[33] = 0x01;
    let mut f = BgPixelFifo::new();
    for _ in 0..3 {
        f.clock(&ppu, 0);
        assert!(f.pixels.is_empty());
    }
    assert_eq!((f.tile_id, f.low, f.high), (2, 0x80, 0x01));
    f.clock(&ppu, 0);
    assert_eq!(f.pixels.len(), 8);
    assert_eq!(f.counter, TileCounter::Bg { x_counter: 1 });
    let colors: Vec<u8> = f.pixels.iter().map(|p| p.color).collect();
    assert_eq!(colors, vec![1, 0, 0, 0, 0, 0, 0, 2]);
    assert_eq!(f.pop_pixel().map(|p| p.color), Some(1));
    assert_eq!(f.pixels.len(), 7);
}

#[test]
fn bg_fetcher_waits_while_fifo_full() {
    let ppu = PpuState::new();
    let mut f = BgPixelFifo::new();
    for _ in 0..8 {
        f.clock(&ppu, 0);
    }
    assert_eq!(f.pixels.len(), 16);
    for _ in 0..4 {
        f.clock(&ppu, 0);
    }
    assert_eq!(f.pixels.len(), 16);
    assert_eq!(f.phase, 3);
    f.clear();
    assert_eq!(f.pop_pixel(), None);
}

#[test]
fn sprite_fetcher_mixes_row_with_flip() {
    let mut ppu = PpuState::new();
    ppu.tile_data[16] = 0xC0; // tile 1 row 0 low
    ppu.tile_data[17] = 0x00;
    let mut f = SpritePixelFifo::new();
    f.load_sprite(OamEntry { ypos: 16, xpos: 8, tile: 1, flags: OamEntryFlags(0x20) });
    for _ in 0..6 {
        f.clock(&ppu, 0);
    }
    let colors: Vec<u8> = f.pixels.iter().map(|p| p.color).collect();
    assert_eq!(colors, vec![0, 0, 0, 0, 0, 0, 1, 1]);
    assert_eq!(f.pop_pixel().color, 0);
    let mut empty = SpritePixelFifo::new();
    assert_eq!(empty.pop_pixel(), Pixel { color: 0, palette: 0, bg_priority: false });
}
