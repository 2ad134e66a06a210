use gb_core::cpu::{CpuInputPins, CpuOutputPins};
use gb_core::memory::Memory;
use gb_core::ppu::{colors, DmaState, PpuState};
use gb_core::scanline::{gen, PpuGenerator};

fn write(ppu: &mut PpuState, addr: u16, v: u8) -> u8 {
    let mut data = 0u8;
    let mut irq = 0u8;
    ppu.perform_io(CpuOutputPins::Write { addr, data: v }, &mut data, &mut irq);
    irq
}

fn read(ppu: &mut PpuState, addr: u16) -> u8 {
    let mut data = 0xEEu8;
    let mut irq = 0u8;
    ppu.perform_io(CpuOutputPins::Read { addr }, &mut data, &mut irq);
    data
}

fn mode(ppu: &PpuState) -> u8 {
    ppu.stat.0 & 0x03
}

#[test]
fn oam_dma_copies_160_bytes() {
    let mut ppu = PpuState::new();
    let mut mem = Memory::new();
    for i in 0..160u16 {
        mem.write(0xC000 + i, i as u8);
    }
    write(&mut ppu, 0xFF46, 0xC0);
    assert_eq!(read(&mut ppu, 0xFF46), 0xC0);
    let mut input = CpuInputPins::with_data(0);
    for _ in 0..161 {
        assert!(ppu.dma_transfer != DmaState::Inactive);
        let out = ppu.clock_dma(input);
        input = match out {
            CpuOutputPins::Read { addr } if mem.chip_select(addr) => mem.clock(out),
            _ => CpuInputPins::with_data(0),
        };
    }
    for i in 0..160usize {
        assert_eq!(ppu.oam[i], i as u8);
    }
    assert_eq!(ppu.dma_transfer, DmaState::Inactive);
    assert_eq!(read(&mut ppu, 0xFF46), 0);
}

#[test]
fn background_only_scanline() {
    let mut ppu = PpuState::new();
    write(&mut ppu, 0xFF40, 0x91);
    write(&mut ppu, 0xFF42, 0);
    write(&mut ppu, 0xFF43, 0);
    write(&mut ppu, 0xFF4A, 255);
    write(&mut ppu, 0xFF47, 0xE4);
    // tile 0, row 0: colors 0,1,2,3,0,1,2,3
    write(&mut ppu, 0x8000, 0x55);
    write(&mut ppu, 0x8001, 0x33);
    let mut g = gen();
    for _ in 0..114 {
        g.advance_4_dots(&mut ppu);
    }
    let expected = [0u8, 1, 2, 3, 0, 1, 2, 3];
    for x in 0..8usize {
        assert_eq!(ppu.back_frame.get(x, 0), colors(expected[x]));
    }
    assert_eq!((g.line, g.dot), (1, 0));
}

#[test]
fn palette_remaps_background() {
    let mut ppu = PpuState::new();
    write(&mut ppu, 0xFF47, 0x1B); // 0->3, 1->2, 2->1, 3->0
    write(&mut ppu, 0x8000, 0x55);
    write(&mut ppu, 0x8001, 0x33);
    let mut g = gen();
    for _ in 0..456 {
        g.resume(&mut ppu);
    }
    let expected = [3u8, 2, 1, 0, 3, 2, 1, 0];
    for x in 0..8usize {
        assert_eq!(ppu.back_frame.get(x, 0), colors(expected[x]));
    }
}

#[test]
fn scx_fine_scroll_discards_pixels() {
    let mut ppu = PpuState::new();
    write(&mut ppu, 0xFF47, 0xE4);
    write(&mut ppu, 0xFF43, 2);
    write(&mut ppu, 0x8000, 0x55);
    write(&mut ppu, 0x8001, 0x33);
    let mut g = gen();
    for _ in 0..456 {
        g.resume(&mut ppu);
    }
    let expected = [2u8, 3, 0, 1, 2, 3];
    for x in 0..6usize {
        assert_eq!(ppu.back_frame.get(x, 0), colors(expected[x]));
    }
}

#[test]
fn sprite_drawn_over_background() {
    let mut ppu = PpuState::new();
    write(&mut ppu, 0xFF40, 0x93); // LCD, BG data unsigned, OBJ on, BG on
    write(&mut ppu, 0xFF47, 0xE4);
    write(&mut ppu, 0xFF48, 0xE4);
    // tile 1: every row color 3
    for row in 0..8u16 {
        write(&mut ppu, 0x8010 + 2 * row, 0xFF);
        write(&mut ppu, 0x8011 + 2 * row, 0xFF);
    }
    // sprite 0 at screen (8, 0): ypos 16, xpos 16, tile 1
    write(&mut ppu, 0xFE00, 16);
    write(&mut ppu, 0xFE01, 16);
    write(&mut ppu, 0xFE02, 1);
    write(&mut ppu, 0xFE03, 0);
    let mut g = gen();
    for _ in 0..456 {
        g.resume(&mut ppu);
    }
    for x in 0..8usize {
        assert_eq!(ppu.back_frame.get(x, 0), colors(0));
    }
    for x in 8..16usize {
        assert_eq!(ppu.back_frame.get(x, 0), colors(3));
    }
    assert_eq!(ppu.back_frame.get(16, 0), colors(0));
}

#[test]
fn oam_scan_keeps_first_ten() {
    let mut ppu = PpuState::new();
    for i in 0..12u16 {
        write(&mut ppu, 0xFE00 + 4 * i, 16);
        write(&mut ppu, 0xFE01 + 4 * i, 200);
        write(&mut ppu, 0xFE02 + 4 * i, i as u8);
    }
    let mut g = gen();
    for _ in 0..80 {
        g.resume(&mut ppu);
    }
    assert_eq!(g.sprite_buffer_len, 10);
    for i in 0..10usize {
        assert_eq!(g.sprite_buffer[i].tile, i as u8);
    }
}

fn frame_position_check(g: &PpuGenerator, ppu: &PpuState) {
    assert!(ppu.ly <= 153);
    assert!(mode(ppu) <= 3);
    if g.dot > 0 {
        assert_eq!(ppu.ly, g.line);
        let expected = if g.line >= 144 {
            1
        } else if g.dot <= 80 {
            2
        } else if g.drawing {
            3
        } else {
            0
        };
        assert_eq!(mode(ppu), expected);
    }
}

#[test]
fn full_frame_timing_and_modes() {
    let mut ppu = PpuState::new();
    let mut g = gen();
    let mut lines_seen = Vec::new();
    let mut dots_in_line = 0u32;
    for _ in 0..(154 * 456) {
        let line = g.line;
        g.resume(&mut ppu);
        frame_position_check(&g, &ppu);
        dots_in_line += 1;
        if g.line != line {
            assert_eq!(dots_in_line, 456);
            dots_in_line = 0;
            lines_seen.push(line);
        }
    }
    assert_eq!(lines_seen.len(), 154);
    for (i, l) in lines_seen.iter().enumerate() {
        assert_eq!(*l as usize, i);
    }
    assert_eq!((g.line, g.dot), (0, 0));
}

#[test]
fn vblank_raised_and_frames_swapped() {
    let mut ppu = PpuState::new();
    write(&mut ppu, 0xFF47, 0xE4);
    write(&mut ppu, 0x8000, 0xFF);
    write(&mut ppu, 0x8001, 0xFF);
    let mut g = gen();
    for _ in 0..(144 * 456) {
        g.resume(&mut ppu);
    }
    assert!(!ppu.vblank_irq);
    g.resume(&mut ppu);
    assert!(ppu.vblank_irq);
    assert_eq!(ppu.ly, 144);
    assert_eq!(mode(&ppu), 1);
    assert_eq!(ppu.frame.get(0, 0), colors(3));
    let mut data = 0u8;
    let mut irq = 0xE0u8;
    ppu.perform_io(CpuOutputPins::Read { addr: 0x0000 }, &mut data, &mut irq);
    assert_eq!(irq, 0xE1);
    for _ in 0..(10 * 456) {
        g.resume(&mut ppu);
    }
    assert!(!ppu.vblank_irq);
    assert_eq!(ppu.ly, 0);
}

#[test]
fn lyc_flag_follows_writes() {
    let mut ppu = PpuState::new();
    write(&mut ppu, 0xFF45, 0);
    assert_eq!(ppu.stat.0 & 0x04, 0x04);
    write(&mut ppu, 0xFF45, 5);
    assert_eq!(ppu.stat.0 & 0x04, 0);
    write(&mut ppu, 0xFF44, 9);
    assert_eq!(ppu.ly, 0);
    assert_eq!(ppu.stat.0 & 0x04, 0);
    write(&mut ppu, 0xFF45, 0);
    assert_eq!(ppu.stat.0 & 0x04, 0x04);
}

#[test]
fn lyc_interrupt_on_scanline() {
    let mut ppu = PpuState::new();
    write(&mut ppu, 0xFF41, 0x40); // LYC interrupt enable
    write(&mut ppu, 0xFF45, 2);
    let mut g = gen();
    for _ in 0..(2 * 456) {
        g.resume(&mut ppu);
    }
    assert!(!ppu.stat_irq);
    g.resume(&mut ppu);
    assert_eq!(ppu.ly, 2);
    assert!(ppu.stat_irq);
    assert_eq!(write(&mut ppu, 0xFF42, 0) & 0x02, 0x02);
}

#[test]
fn register_write_read_back() {
    let mut ppu = PpuState::new();
    for addr in [0xFF40u16, 0xFF42, 0xFF43, 0xFF45, 0xFF47, 0xFF48, 0xFF49, 0xFF4A, 0xFF4B] {
        write(&mut ppu, addr, 0x5C);
        assert_eq!(read(&mut ppu, addr), 0x5C);
    }
    for addr in [0x8000u16, 0x97FF, 0x9800, 0x9BFF, 0x9C00, 0x9FFF, 0xFE00, 0xFE9F] {
        write(&mut ppu, addr, 0xA7);
        assert_eq!(read(&mut ppu, addr), 0xA7);
    }
    write(&mut ppu, 0xFF46, 0xC1);
    assert_eq!(read(&mut ppu, 0xFF46), 0xC1);
}

#[test]
fn stat_write_keeps_mode_and_lyc_bits() {
    let mut ppu = PpuState::new();
    let mut g = gen();
    for _ in 0..10 {
        g.resume(&mut ppu);
    }
    assert_eq!(mode(&ppu), 2);
    write(&mut ppu, 0xFF41, 0xFF);
    let stat = read(&mut ppu, 0xFF41);
    assert_eq!(stat & 0x78, 0x78);
    assert_eq!(stat & 0x03, 2);
    assert_eq!(stat & 0x04, 0x04); // LY = LYC = 0
    assert_eq!(stat & 0x80, 0);
    assert!(ppu.stat_irq);
}

#[test]
fn unmapped_read_leaves_data() {
    let mut ppu = PpuState::new();
    assert_eq!(read(&mut ppu, 0xC000), 0xEE);
    assert_eq!(read(&mut ppu, 0xFF40), 0x91);
}

#[test]
fn oam_entry_decoding() {
    let mut ppu = PpuState::new();
    write(&mut ppu, 0xFE04, 0x20);
    write(&mut ppu, 0xFE05, 0x30);
    write(&mut ppu, 0xFE06, 0x07);
    write(&mut ppu, 0xFE07, 0xFF);
    let e = ppu.oam(1);
    assert_eq!((e.ypos, e.xpos, e.tile, e.flags.0), (0x20, 0x30, 0x07, 0xF0));
}

#[test]
fn bg_tile_addressing_modes() {
    let mut ppu = PpuState::new();
    assert_eq!(ppu.bg_tile_data_address(0x80), 0x800);
    write(&mut ppu, 0xFF40, 0x81);
    assert_eq!(ppu.bg_tile_data_address(0x00), 0x1000);
    assert_eq!(ppu.bg_tile_data_address(0x7F), 0x17F0);
    assert_eq!(ppu.bg_tile_data_address(0x80), 0x0800);
    assert_eq!(ppu.bg_tile_data_address(0xFF), 0x0FF0);
    assert_eq!(ppu.sprite_tile_data_address(0xFF), 0x0FF0);
    assert_eq!(ppu.sprite_height(), 8);
    write(&mut ppu, 0xFF40, 0x85);
    assert_eq!(ppu.sprite_height(), 16);
}

#[test]
fn window_drawn_from_window_map() {
    let mut ppu = PpuState::new();
    // LCD, window on, window map 2, BG data unsigned, BG on
    write(&mut ppu, 0xFF40, 0xF1);
    write(&mut ppu, 0xFF47, 0xE4);
    write(&mut ppu, 0xFF4A, 0);
    write(&mut ppu, 0xFF4B, 7 + 80);
    // tile 1 is all color 3; the window map points at it
    for row in 0..8u16 {
        write(&mut ppu, 0x8010 + 2 * row, 0xFF);
        write(&mut ppu, 0x8011 + 2 * row, 0xFF);
    }
    for i in 0..32u16 {
        write(&mut ppu, 0x9C00 + i, 1);
    }
    let mut g = gen();
    for _ in 0..456 {
        g.resume(&mut ppu);
    }
    assert_eq!(ppu.back_frame.get(10, 0), colors(0));
    assert_eq!(ppu.back_frame.get(100, 0), colors(3));
    assert_eq!(g.window_lines, 1);
}

fn mode3_dots_on_line_0(ppu: &mut PpuState) -> u32 {
    let mut g = gen();
    let mut n = 0;
    for _ in 0..456 {
        g.resume(ppu);
        if mode(ppu) == 3 {
            n += 1;
        }
    }
    n
}

#[test]
fn mode3_length_plain_line() {
    let mut ppu = PpuState::new();
    assert_eq!(mode3_dots_on_line_0(&mut ppu), 172);
}

#[test]
fn mode3_length_with_fine_scroll() {
    let mut ppu = PpuState::new();
    write(&mut ppu, 0xFF43, 3);
    assert_eq!(mode3_dots_on_line_0(&mut ppu), 175);
}

#[test]
fn mode3_length_with_sprite() {
    let mut ppu = PpuState::new();
    write(&mut ppu, 0xFF40, 0x93);
    write(&mut ppu, 0xFE00, 16);
    write(&mut ppu, 0xFE01, 40);
    assert_eq!(mode3_dots_on_line_0(&mut ppu), 178);
}

#[test]
fn sprite_partly_left_of_screen() {
    let mut ppu = PpuState::new();
    write(&mut ppu, 0xFF40, 0x93);
    write(&mut ppu, 0xFF47, 0xE4);
    write(&mut ppu, 0xFF49, 0xE4);
    // tile 1 row 0: colors 1,2,3,1,2,3,1,2
    write(&mut ppu, 0x8010, 0b1011_0110);
    write(&mut ppu, 0x8011, 0b0110_1101);
    write(&mut ppu, 0xFE00, 16);
    write(&mut ppu, 0xFE01, 5); // three columns off screen
    write(&mut ppu, 0xFE02, 1);
    write(&mut ppu, 0xFE03, 0x10); // OBP1
    let mut g = gen();
    for _ in 0..456 {
        g.resume(&mut ppu);
    }
    let expected = [1u8, 2, 3, 1, 2];
    for x in 0..5usize {
        assert_eq!(ppu.back_frame.get(x, 0), colors(expected[x]));
    }
    assert_eq!(ppu.back_frame.get(5, 0), colors(0));
}

#[test]
fn sprite_behind_background_priority() {
    let mut ppu = PpuState::new();
    write(&mut ppu, 0xFF40, 0x93);
    write(&mut ppu, 0xFF47, 0xE4);
    write(&mut ppu, 0xFF48, 0xE4);
    // BG tile 0 row 0: colors 0,0,0,0,1,1,1,1
    write(&mut ppu, 0x8000, 0x0F);
    // sprite tile 1 row 0: all color 2
    write(&mut ppu, 0x8011, 0xFF);
    write(&mut ppu, 0xFE00, 16);
    write(&mut ppu, 0xFE01, 8);
    write(&mut ppu, 0xFE02, 1);
    write(&mut ppu, 0xFE03, 0x80); // behind BG colors 1-3
    let mut g = gen();
    for _ in 0..456 {
        g.resume(&mut ppu);
    }
    for x in 0..4usize {
        assert_eq!(ppu.back_frame.get(x, 0), colors(2));
    }
    for x in 4..8usize {
        assert_eq!(ppu.back_frame.get(x, 0), colors(1));
    }
}
