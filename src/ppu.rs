//! PPU memories and registers, their memory-mapped interface, and the OAM DMA engine.
use vstd::prelude::*;
use crate::cpu::{CpuInputPins, CpuOutputPins};
use crate::ppu_registers::{
    LCDC,
    STAT,
    OamEntry,
    OamEntryFlags,
    BG_TILEMAP_AREA,
    BG_TILE_DATA_AREA,
    HBLANK_INTERRUPT_ENABLE,
    LYC_EQUALS_LY,
    LYC_INTERRUPT_ENABLE,
    OAM_INTERRUPT_ENABLE,
    OBJ_SIZE,
    VBLANK_INTERRUPT_ENABLE,
    WINDOW_TILEMAP_AREA,
};

verus! {

pub const SCREEN_WIDTH: usize = 160;
pub const SCREEN_HEIGHT: usize = 144;
pub const FRAME_PIXELS: usize = 23040;
pub const TILE_DATA_SIZE: usize = 0x1800;
pub const BG_MAP_SIZE: usize = 0x400;
pub const OAM_SIZE: usize = 0xA0;

/// The RGBA color of a 2-bit palette output: white, light gray, dark gray, black.
pub open spec fn spec_color(id: u8) -> u32 {
    if id == 0 {
        0xFFFFFFFF
    } else if id == 1 {
        0xAAAAAAFF
    } else if id == 2 {
        0x555555FF
    } else {
        0x000000FF
    }
}

/// The 4-entry color table, indexed by a 2-bit palette output.
pub fn colors(id: u8) -> (r: u32)
    ensures
        r == spec_color(id),
{
    if id == 0 {
        0xFFFFFFFF
    } else if id == 1 {
        0xAAAAAAFF
    } else if id == 2 {
        0x555555FF
    } else {
        0x000000FF
    }
}

/// The 2-bit shade that `palette` gives the color index `c`.
pub open spec fn palette_shade(palette: u8, c: u8) -> u8 {
    (palette >> (2 * c)) & 0x3
}

pub fn calculate_monochrome_color_id(palette: u8, c: u8) -> (r: u8)
    requires
        c < 4,
    ensures
        r == palette_shade(palette, c),
        r < 4,
{
    let r = (palette >> (2 * c)) & 0x3;
    assert(r < 4) by (bit_vector)
        requires
            r == (palette >> (2 * c)) & 0x3,
    ;
    r
}

/// A pixel as it travels through a FIFO: a 2-bit color index, the sprite palette
/// (0 = OBP0, 1 = OBP1) and the sprite's BG-priority attribute.
#[derive(Clone, Copy, Debug, PartialEq, Eq, Structural)]
pub struct Pixel {
    pub color: u8,
    pub palette: u8,
    pub bg_priority: bool,
}

impl Pixel {
    pub open spec fn wf(self) -> bool {
        self.color < 4
    }

    /// A transparent pixel.
    pub fn blank() -> (r: Pixel)
        ensures
            r == (Pixel { color: 0, palette: 0, bg_priority: false }),
    {
        Pixel { color: 0, palette: 0, bg_priority: false }
    }
}

/// The shade shown where a BG pixel and a sprite pixel meet: the sprite wins when its color is
/// not 0 and it either has no BG priority or the BG color is 0.
pub open spec fn mixed_shade(bgp: u8, obp0: u8, obp1: u8, bg: Pixel, sprite: Pixel) -> u8 {
    if sprite.color == 0 || (sprite.bg_priority && bg.color != 0) {
        palette_shade(bgp, bg.color)
    } else {
        palette_shade(if sprite.palette == 0 { obp0 } else { obp1 }, sprite.color)
    }
}

/// 160 x 144 RGBA pixels, row by row.
#[derive(Debug)]
pub struct Frame {
    pub pixels: Vec<u32>,
}

impl Frame {
    pub open spec fn wf(&self) -> bool {
        self.pixels@.len() == FRAME_PIXELS
    }

    /// A black-transparent frame (every pixel 0).
    pub fn new() -> (r: Frame)
        ensures
            r.wf(),
            forall|i: int| 0 <= i < FRAME_PIXELS ==> r.pixels@[i] == 0,
    {
        Frame { pixels: vec![0u32; FRAME_PIXELS] }
    }

    /// The pixel at column `x`, row `y`.
    pub fn get(&self, x: usize, y: usize) -> (r: u32)
        requires
            self.wf(),
            x < SCREEN_WIDTH,
            y < SCREEN_HEIGHT,
        ensures
            r == self.pixels@[y * 160 + x],
    {
        self.pixels[y * 160 + x]
    }
}

/// State of the OAM DMA engine.
#[derive(Clone, Copy, Debug, PartialEq, Eq, Structural)]
pub enum DmaState {
    Inactive,
    /// A transfer from `addr` has been requested; its first read is still to be issued.
    ActiveFirstRead { addr: u16 },
    /// The byte read from `addr` arrives on this cycle and goes to OAM at `addr % 0x100`.
    Active { addr: u16 },
}

impl DmaState {
    pub open spec fn wf(self) -> bool {
        match self {
            DmaState::Inactive => true,
            DmaState::ActiveFirstRead { addr } => addr % 256 == 0,
            DmaState::Active { addr } => addr % 256 < 160,
        }
    }

    /// What a read of 0xFF46 returns: the source page of the transfer, or 0 when inactive.
    pub open spec fn read_back(self) -> u8 {
        match self {
            DmaState::Inactive => 0,
            DmaState::ActiveFirstRead { addr } => (addr / 256) as u8,
            DmaState::Active { addr } => (addr / 256) as u8,
        }
    }
}

/// STAT with the LY=LYC flag set to `equal`.
pub open spec fn with_lyc_flag(stat: u8, equal: bool) -> u8 {
    if equal {
        stat | LYC_EQUALS_LY
    } else {
        stat & !LYC_EQUALS_LY
    }
}

/// The STAT interrupt line: the current mode's source is enabled, or LY=LYC with its enable.
pub open spec fn stat_irq_of(stat: u8) -> bool {
    let mode = stat & 0x03;
    (mode == 0 && stat & HBLANK_INTERRUPT_ENABLE == HBLANK_INTERRUPT_ENABLE) || (mode == 1 && stat
        & VBLANK_INTERRUPT_ENABLE == VBLANK_INTERRUPT_ENABLE) || (mode == 2 && stat
        & OAM_INTERRUPT_ENABLE == OAM_INTERRUPT_ENABLE) || (stat & (LYC_INTERRUPT_ENABLE
        | LYC_EQUALS_LY) == (LYC_INTERRUPT_ENABLE | LYC_EQUALS_LY))
}

/// What the STAT mode and LY=LYC bits become under `set_mode` and `set_ly`.
pub proof fn lemma_stat_bits(s: u8, m: u8, e: bool)
    requires
        m <= 3,
    ensures
        ((s & 0xFC) | m) & 0x03 == m,
        ((s & 0xFC) | m) & 0x04 == s & 0x04,
        with_lyc_flag(s, e) & 0x03 == s & 0x03,
        (with_lyc_flag(s, e) & 0x04 != 0) == e,
{
    assert(((s & 0xFC) | m) & 0x03 == m && ((s & 0xFC) | m) & 0x04 == s & 0x04) by (bit_vector)
        requires
            m <= 3,
    ;
    assert((s | 0x04) & 0x03 == s & 0x03 && (s & !0x04u8) & 0x03 == s & 0x03 && (s | 0x04) & 0x04
        != 0 && (s & !0x04u8) & 0x04 == 0) by (bit_vector);
}

/// After a write to LY or LYC, STAT's LY=LYC flag tells exactly whether LY equals LYC.
pub proof fn lemma_lyc_flag_after_write(s0: &PpuState, s1: &PpuState, input: CpuOutputPins)
    requires
        s0.wf(),
        PpuState::io_post(s0, s1, input),
        is_write_to(input, 0xFF44) || is_write_to(input, 0xFF45),
    ensures
        (s1.stat.0 & LYC_EQUALS_LY != 0) == (s1.ly == s1.lyc),
{
    if let CpuOutputPins::Write { addr, data } = input {
        lemma_stat_bits(s0.stat.0, 0, s1.ly == s1.lyc);
    }
}

/// The addresses whose byte reads back as it was written: video memory, OAM, and the
/// registers but STAT and LY.
pub open spec fn reads_back(addr: u16) -> bool {
    (0x8000 <= addr <= 0x9FFF) || (0xFE00 <= addr <= 0xFE9F) || addr == 0xFF40 || addr == 0xFF42
        || addr == 0xFF43 || (0xFF45 <= addr <= 0xFF4B)
}

/// A byte written through the bus reads back as written at every address of `reads_back`
/// (for 0xFF46, the source page of the DMA it started); STAT reads back its writable bits 3-6.
pub proof fn lemma_write_then_read(s0: &PpuState, s1: &PpuState, addr: u16, v: u8)
    requires
        s0.wf(),
        PpuState::io_post(s0, s1, CpuOutputPins::Write { addr, data: v }),
    ensures
        reads_back(addr) ==> s1.read_value(addr) == Some(v),
        addr == 0xFF41 ==> s1.read_value(addr) is Some && s1.read_value(addr)->Some_0 & 0x78 == v
            & 0x78,
{
    let s = s0.stat.0;
    assert(((v & 0x78) | (s & 0x07)) & 0x78 == v & 0x78) by (bit_vector);
}

/// A memory region mapped at `base` after a bus access.
pub open spec fn mem_after_io(mem: Seq<u8>, base: int, input: CpuOutputPins) -> Seq<u8> {
    match input {
        CpuOutputPins::Write { addr, data } => if base <= addr < base + mem.len() {
            mem.update(addr - base, data)
        } else {
            mem
        },
        CpuOutputPins::Read { .. } => mem,
    }
}

/// A plain register at `at` after a bus access.
pub open spec fn reg_after_io(old: u8, at: u16, input: CpuOutputPins) -> u8 {
    match input {
        CpuOutputPins::Write { addr, data } => if addr == at {
            data
        } else {
            old
        },
        CpuOutputPins::Read { .. } => old,
    }
}

pub open spec fn is_write_to(input: CpuOutputPins, at: u16) -> bool {
    match input {
        CpuOutputPins::Write { addr, .. } => addr == at,
        CpuOutputPins::Read { .. } => false,
    }
}

/// The IF byte with bit 0 from the VBlank line and bit 1 from the STAT line.
pub open spec fn refreshed_if(interrupt_request: u8, vblank_irq: bool, stat_irq: bool) -> u8 {
    (interrupt_request & 0xFC) | (if vblank_irq { 1u8 } else { 0u8 }) | (if stat_irq {
        2u8
    } else {
        0u8
    })
}

/// The PPU: video memories, registers, interrupt lines, the two frames and the DMA engine.
#[derive(Debug)]
pub struct PpuState {
    /// 0x8000-0x97FF
    pub tile_data: Vec<u8>,
    /// 0x9800-0x9BFF
    pub bg_map_1: Vec<u8>,
    /// 0x9C00-0x9FFF
    pub bg_map_2: Vec<u8>,
    /// 0xFE00-0xFE9F
    pub oam: Vec<u8>,
    pub lcdc: LCDC,
    pub stat: STAT,
    pub scy: u8,
    pub scx: u8,
    pub ly: u8,
    pub lyc: u8,
    pub wy: u8,
    pub wx: u8,
    pub bgp: u8,
    pub obp0: u8,
    pub obp1: u8,
    pub vblank_irq: bool,
    pub stat_irq: bool,
    /// The last complete frame.
    pub frame: Frame,
    /// The frame being drawn; it becomes `frame` at the start of VBlank.
    pub back_frame: Frame,
    pub dma_transfer: DmaState,
}

impl PpuState {
    pub open spec fn wf(&self) -> bool {
        &&& self.tile_data@.len() == TILE_DATA_SIZE
        &&& self.bg_map_1@.len() == BG_MAP_SIZE
        &&& self.bg_map_2@.len() == BG_MAP_SIZE
        &&& self.oam@.len() == OAM_SIZE
        &&& self.frame.wf()
        &&& self.back_frame.wf()
        &&& self.ly <= 153
        &&& self.dma_transfer.wf()
        &&& self.stat_irq == stat_irq_of(self.stat.0)
    }

    /// The video memories and both frames are those of `o`.
    pub open spec fn same_memories(&self, o: &PpuState) -> bool {
        &&& self.tile_data@ == o.tile_data@
        &&& self.bg_map_1@ == o.bg_map_1@
        &&& self.bg_map_2@ == o.bg_map_2@
        &&& self.oam@ == o.oam@
        &&& self.frame.pixels@ == o.frame.pixels@
        &&& self.back_frame.pixels@ == o.back_frame.pixels@
    }

    /// Every register, interrupt line and the DMA state are those of `o`.
    pub open spec fn same_registers(&self, o: &PpuState) -> bool {
        &&& self.lcdc == o.lcdc
        &&& self.stat == o.stat
        &&& self.scy == o.scy
        &&& self.scx == o.scx
        &&& self.ly == o.ly
        &&& self.lyc == o.lyc
        &&& self.wy == o.wy
        &&& self.wx == o.wx
        &&& self.bgp == o.bgp
        &&& self.obp0 == o.obp0
        &&& self.obp1 == o.obp1
        &&& self.vblank_irq == o.vblank_irq
        &&& self.stat_irq == o.stat_irq
        &&& self.dma_transfer == o.dma_transfer
    }

    /// STAT after a bus access: a write to STAT replaces bits 3-6 and keeps the mode and the
    /// LY=LYC flag; a write to LY or LYC recomputes the LY=LYC flag.
    pub open spec fn stat_after_io(&self, input: CpuOutputPins) -> u8 {
        match input {
            CpuOutputPins::Write { addr, data } => if addr == 0xFF41 {
                (data & 0x78) | (self.stat.0 & 0x07)
            } else if addr == 0xFF44 {
                with_lyc_flag(self.stat.0, self.ly == self.lyc)
            } else if addr == 0xFF45 {
                with_lyc_flag(self.stat.0, self.ly == data)
            } else {
                self.stat.0
            },
            CpuOutputPins::Read { .. } => self.stat.0,
        }
    }

    /// Whether a bus access changes STAT and so recomputes the STAT line.
    pub open spec fn io_touches_stat(input: CpuOutputPins) -> bool {
        is_write_to(input, 0xFF41) || is_write_to(input, 0xFF44) || is_write_to(input, 0xFF45)
    }

    /// The byte a read of `addr` returns, if the PPU answers that address.
    pub open spec fn read_value(&self, addr: u16) -> Option<u8> {
        if 0x8000 <= addr <= 0x97FF {
            Some(self.tile_data@[addr - 0x8000])
        } else if 0x9800 <= addr <= 0x9BFF {
            Some(self.bg_map_1@[addr - 0x9800])
        } else if 0x9C00 <= addr <= 0x9FFF {
            Some(self.bg_map_2@[addr - 0x9C00])
        } else if 0xFE00 <= addr <= 0xFE9F {
            Some(self.oam@[addr - 0xFE00])
        } else if addr == 0xFF40 {
            Some(self.lcdc.0)
        } else if addr == 0xFF41 {
            Some(self.stat.0)
        } else if addr == 0xFF42 {
            Some(self.scy)
        } else if addr == 0xFF43 {
            Some(self.scx)
        } else if addr == 0xFF44 {
            Some(self.ly)
        } else if addr == 0xFF45 {
            Some(self.lyc)
        } else if addr == 0xFF46 {
            Some(self.dma_transfer.read_back())
        } else if addr == 0xFF47 {
            Some(self.bgp)
        } else if addr == 0xFF48 {
            Some(self.obp0)
        } else if addr == 0xFF49 {
            Some(self.obp1)
        } else if addr == 0xFF4A {
            Some(self.wy)
        } else if addr == 0xFF4B {
            Some(self.wx)
        } else {
            None
        }
    }

    /// How a bus access changes the PPU: the memories and registers it addresses, by the
    /// rules of `perform_io`; the frames, LY and the VBlank line stay.
    pub open spec fn io_post(s0: &PpuState, s1: &PpuState, input: CpuOutputPins) -> bool {
        &&& s1.tile_data@ == mem_after_io(s0.tile_data@, 0x8000, input)
        &&& s1.bg_map_1@ == mem_after_io(s0.bg_map_1@, 0x9800, input)
        &&& s1.bg_map_2@ == mem_after_io(s0.bg_map_2@, 0x9C00, input)
        &&& s1.oam@ == mem_after_io(s0.oam@, 0xFE00, input)
        &&& s1.frame.pixels@ == s0.frame.pixels@
        &&& s1.back_frame.pixels@ == s0.back_frame.pixels@
        &&& s1.lcdc.0 == reg_after_io(s0.lcdc.0, 0xFF40, input)
        &&& s1.stat.0 == s0.stat_after_io(input)
        &&& s1.scy == reg_after_io(s0.scy, 0xFF42, input)
        &&& s1.scx == reg_after_io(s0.scx, 0xFF43, input)
        &&& s1.ly == s0.ly
        &&& s1.lyc == reg_after_io(s0.lyc, 0xFF45, input)
        &&& s1.bgp == reg_after_io(s0.bgp, 0xFF47, input)
        &&& s1.obp0 == reg_after_io(s0.obp0, 0xFF48, input)
        &&& s1.obp1 == reg_after_io(s0.obp1, 0xFF49, input)
        &&& s1.wy == reg_after_io(s0.wy, 0xFF4A, input)
        &&& s1.wx == reg_after_io(s0.wx, 0xFF4B, input)
        &&& s1.vblank_irq == s0.vblank_irq
        &&& s1.stat_irq == if PpuState::io_touches_stat(input) {
                stat_irq_of(s1.stat.0)
            } else {
                s0.stat_irq
            }
        &&& s1.dma_transfer == match input {
                CpuOutputPins::Write { addr, data } => if addr == 0xFF46 {
                    DmaState::ActiveFirstRead { addr: (data as int * 256) as u16 }
                } else {
                    s0.dma_transfer
                },
                CpuOutputPins::Read { .. } => s0.dma_transfer,
            }
    }

    /// The OAM entry `index` as the four bytes that hold it.
    pub open spec fn spec_oam(&self, index: int) -> OamEntry {
        OamEntry {
            ypos: self.oam@[index * 4],
            xpos: self.oam@[index * 4 + 1],
            tile: self.oam@[index * 4 + 2],
            flags: OamEntryFlags(self.oam@[index * 4 + 3] & 0xF0),
        }
    }

    pub open spec fn spec_sprite_height(&self) -> u8 {
        if self.lcdc.0 & OBJ_SIZE == OBJ_SIZE {
            16
        } else {
            8
        }
    }

    /// Index in tile data of the first byte of BG/window tile `tile_no`: unsigned from 0, or
    /// signed from 0x1000, by LCDC.BG_TILE_DATA_AREA.
    pub open spec fn spec_bg_tile_data_address(&self, tile_no: u8) -> int {
        if self.lcdc.0 & BG_TILE_DATA_AREA == BG_TILE_DATA_AREA {
            tile_no as int * 16
        } else if tile_no < 128 {
            0x1000 + tile_no as int * 16
        } else {
            0x1000 + (tile_no as int - 256) * 16
        }
    }

    pub open spec fn spec_bg_tile_number(&self, offset: int) -> u8 {
        if self.lcdc.0 & BG_TILEMAP_AREA == BG_TILEMAP_AREA {
            self.bg_map_2@[offset]
        } else {
            self.bg_map_1@[offset]
        }
    }

    pub open spec fn spec_window_tile_number(&self, offset: int) -> u8 {
        if self.lcdc.0 & WINDOW_TILEMAP_AREA == WINDOW_TILEMAP_AREA {
            self.bg_map_2@[offset]
        } else {
            self.bg_map_1@[offset]
        }
    }

    /// Zeroed memories and registers, LCDC = LCD_ENABLE | BG_TILE_DATA_AREA | BG_ENABLE, no
    /// DMA.
    pub fn new() -> (r: PpuState)
        ensures
            r.wf(),
            r.lcdc.0 == 0x91,
            r.stat.0 == 0 && r.scy == 0 && r.scx == 0 && r.ly == 0 && r.lyc == 0 && r.wy == 0
                && r.wx == 0 && r.bgp == 0 && r.obp0 == 0 && r.obp1 == 0,
            !r.vblank_irq && !r.stat_irq,
            r.dma_transfer == DmaState::Inactive,
            forall|i: int| 0 <= i < TILE_DATA_SIZE ==> r.tile_data@[i] == 0,
            forall|i: int| 0 <= i < BG_MAP_SIZE ==> r.bg_map_1@[i] == 0 && r.bg_map_2@[i] == 0,
            forall|i: int| 0 <= i < OAM_SIZE ==> r.oam@[i] == 0,
    {
        let lcdc = LCDC::new();
        assert(0x80u8 | 0x10u8 | 0x01u8 == 0x91u8) by (bit_vector);
        assert(!stat_irq_of(0u8)) by (bit_vector);
        PpuState {
            tile_data: vec![0u8; TILE_DATA_SIZE],
            bg_map_1: vec![0u8; BG_MAP_SIZE],
            bg_map_2: vec![0u8; BG_MAP_SIZE],
            oam: vec![0u8; OAM_SIZE],
            lcdc,
            stat: STAT(0),
            scy: 0,
            scx: 0,
            ly: 0,
            lyc: 0,
            wy: 0,
            wx: 0,
            bgp: 0,
            obp0: 0,
            obp1: 0,
            vblank_irq: false,
            stat_irq: false,
            frame: Frame::new(),
            back_frame: Frame::new(),
            dma_transfer: DmaState::Inactive,
        }
    }

    /// Returns OAM entry `index`.
    pub fn oam(&self, index: usize) -> (r: OamEntry)
        requires
            self.wf(),
            index < 40,
        ensures
            r == self.spec_oam(index as int),
    {
        OamEntry {
            ypos: self.oam[index * 4],
            xpos: self.oam[index * 4 + 1],
            tile: self.oam[index * 4 + 2],
            flags: OamEntryFlags::from_bits_truncate(self.oam[index * 4 + 3]),
        }
    }

    /// 16 with LCDC.OBJ_SIZE, else 8.
    pub fn sprite_height(&self) -> (r: u8)
        ensures
            r == self.spec_sprite_height(),
    {
        if self.lcdc.contains(OBJ_SIZE) {
            16
        } else {
            8
        }
    }

    /// The BG tile number at `offset` of the map that LCDC.BG_TILEMAP_AREA selects.
    pub fn get_bg_tile_number(&self, offset: u16) -> (r: u8)
        requires
            self.wf(),
            offset < 0x400,
        ensures
            r == self.spec_bg_tile_number(offset as int),
    {
        if self.lcdc.contains(BG_TILEMAP_AREA) {
            self.bg_map_2[offset as usize]
        } else {
            self.bg_map_1[offset as usize]
        }
    }

    /// The window tile number at `offset` of the map that LCDC.WINDOW_TILEMAP_AREA selects.
    pub fn get_window_tile_number(&self, offset: u16) -> (r: u8)
        requires
            self.wf(),
            offset < 0x400,
        ensures
            r == self.spec_window_tile_number(offset as int),
    {
        if self.lcdc.contains(WINDOW_TILEMAP_AREA) {
            self.bg_map_2[offset as usize]
        } else {
            self.bg_map_1[offset as usize]
        }
    }

    pub fn bg_tile_data_address(&self, tile_no: u8) -> (r: usize)
        ensures
            r == self.spec_bg_tile_data_address(tile_no),
            r + 16 <= TILE_DATA_SIZE,
    {
        if self.lcdc.contains(BG_TILE_DATA_AREA) {
            tile_no as usize * 16
        } else if tile_no < 128 {
            0x1000 + tile_no as usize * 16
        } else {
            0x1000 - (256 - tile_no as usize) * 16
        }
    }

    /// Sprites always address tiles unsigned from the start of tile data.
    pub fn sprite_tile_data_address(&self, tile_no: u8) -> (r: usize)
        ensures
            r == tile_no as int * 16,
            r + 16 <= TILE_DATA_SIZE,
    {
        tile_no as usize * 16
    }

    /// Draws into the back frame at (`x`, `y`) the shade that mixing `bg_pix` and `sprite_pix`
    /// gives, through BGP or the sprite's palette.
    pub fn put_pixel(&mut self, bg_pix: Pixel, sprite_pix: Pixel, x: usize, y: usize)
        requires
            old(self).wf(),
            bg_pix.wf(),
            sprite_pix.wf(),
            x < SCREEN_WIDTH,
            y < SCREEN_HEIGHT,
        ensures
            final(self).wf(),
            final(self).back_frame.pixels@ == old(self).back_frame.pixels@.update(
                y * 160 + x,
                spec_color(
                    mixed_shade(old(self).bgp, old(self).obp0, old(self).obp1, bg_pix, sprite_pix),
                ),
            ),
            final(self).frame.pixels@ == old(self).frame.pixels@,
            final(self).tile_data@ == old(self).tile_data@,
            final(self).bg_map_1@ == old(self).bg_map_1@,
            final(self).bg_map_2@ == old(self).bg_map_2@,
            final(self).oam@ == old(self).oam@,
            final(self).same_registers(old(self)),
    {
        let color_id = if sprite_pix.color == 0 || (sprite_pix.bg_priority && bg_pix.color != 0) {
            calculate_monochrome_color_id(self.bgp, bg_pix.color)
        } else {
            let palette = if sprite_pix.palette == 0 {
                self.obp0
            } else {
                self.obp1
            };
            calculate_monochrome_color_id(palette, sprite_pix.color)
        };
        self.back_frame.pixels.set(y * 160 + x, colors(color_id));
    }

    /// Exchanges the back and front frames.
    pub fn swap_frames(&mut self)
        ensures
            final(self).frame.pixels@ == old(self).back_frame.pixels@,
            final(self).back_frame.pixels@ == old(self).frame.pixels@,
            final(self).tile_data@ == old(self).tile_data@,
            final(self).bg_map_1@ == old(self).bg_map_1@,
            final(self).bg_map_2@ == old(self).bg_map_2@,
            final(self).oam@ == old(self).oam@,
            final(self).same_registers(old(self)),
    {
        std::mem::swap(&mut self.back_frame, &mut self.frame);
    }

    /// Recomputes the STAT interrupt line from STAT.
    pub fn update_stat_interrupt(&mut self)
        ensures
            final(self).stat_irq == stat_irq_of(old(self).stat.0),
            final(self).same_memories(old(self)),
            final(self).lcdc == old(self).lcdc && final(self).stat == old(self).stat
                && final(self).scy == old(self).scy && final(self).scx == old(self).scx
                && final(self).ly == old(self).ly && final(self).lyc == old(self).lyc
                && final(self).wy == old(self).wy && final(self).wx == old(self).wx
                && final(self).bgp == old(self).bgp && final(self).obp0 == old(self).obp0
                && final(self).obp1 == old(self).obp1 && final(self).vblank_irq == old(
                self,
            ).vblank_irq && final(self).dma_transfer == old(self).dma_transfer,
    {
        let mode = self.stat.mode();
        let mode_int = if mode.0 == 0 {
            self.stat.contains(HBLANK_INTERRUPT_ENABLE)
        } else if mode.0 == 1 {
            self.stat.contains(VBLANK_INTERRUPT_ENABLE)
        } else if mode.0 == 2 {
            self.stat.contains(OAM_INTERRUPT_ENABLE)
        } else {
            false
        };
        let lyc_int = self.stat.contains(LYC_INTERRUPT_ENABLE | LYC_EQUALS_LY);
        self.stat_irq = mode_int || lyc_int;
    }

    /// Sets LY, recomputes the LY=LYC flag and the STAT line.
    pub fn set_ly(&mut self, ly: u8)
        requires
            old(self).wf(),
            ly <= 153,
        ensures
            final(self).wf(),
            final(self).ly == ly,
            final(self).stat.0 == with_lyc_flag(old(self).stat.0, ly == old(self).lyc),
            final(self).stat_irq == stat_irq_of(final(self).stat.0),
            final(self).same_memories(old(self)),
            final(self).lcdc == old(self).lcdc && final(self).scy == old(self).scy
                && final(self).scx == old(self).scx && final(self).lyc == old(self).lyc
                && final(self).wy == old(self).wy && final(self).wx == old(self).wx
                && final(self).bgp == old(self).bgp && final(self).obp0 == old(self).obp0
                && final(self).obp1 == old(self).obp1 && final(self).vblank_irq == old(
                self,
            ).vblank_irq && final(self).dma_transfer == old(self).dma_transfer,
    {
        self.ly = ly;
        let equal = self.ly == self.lyc;
        self.stat.set(LYC_EQUALS_LY, equal);
        self.update_stat_interrupt();
    }

    /// Sets the STAT mode bits and recomputes the STAT line.
    pub fn set_mode(&mut self, mode: u8)
        requires
            old(self).wf(),
            mode <= 3,
        ensures
            final(self).wf(),
            final(self).stat.0 == (old(self).stat.0 & 0xFC) | mode,
            final(self).stat_irq == stat_irq_of(final(self).stat.0),
            final(self).same_memories(old(self)),
            final(self).lcdc == old(self).lcdc && final(self).scy == old(self).scy
                && final(self).scx == old(self).scx && final(self).ly == old(self).ly
                && final(self).lyc == old(self).lyc && final(self).wy == old(self).wy
                && final(self).wx == old(self).wx && final(self).bgp == old(self).bgp
                && final(self).obp0 == old(self).obp0 && final(self).obp1 == old(self).obp1
                && final(self).vblank_irq == old(self).vblank_irq && final(self).dma_transfer
                == old(self).dma_transfer,
    {
        self.stat.set_mode(STAT(mode));
        self.update_stat_interrupt();
    }

    /// Services a CPU bus access. Writes go to the addressed memory or register (LY is read
    /// only; a write to STAT keeps its mode and LY=LYC bits; a write to LY or LYC recomputes the
    /// LY=LYC flag; a write to 0xFF46 starts an OAM DMA from `value * 0x100`). Reads of a PPU
    /// address place the byte in `data`; other addresses leave it alone. Afterwards bits 0 and
    /// 1 of `interrupt_request` follow the VBlank and STAT lines.
    pub fn perform_io(&mut self, input: CpuOutputPins, data: &mut u8, interrupt_request: &mut u8)
        requires
            old(self).wf(),
        ensures
            final(self).wf(),
            PpuState::io_post(old(self), final(self), input),
            *final(data) == match input {
                CpuOutputPins::Read { addr } => match old(self).read_value(addr) {
                    Some(v) => v,
                    None => *old(data),
                },
                CpuOutputPins::Write { .. } => *old(data),
            },
            *final(interrupt_request) == refreshed_if(
                *old(interrupt_request),
                final(self).vblank_irq,
                final(self).stat_irq,
            ),
    {
        match input {
            CpuOutputPins::Write { addr, data: v } => {
                if 0x8000 <= addr && addr <= 0x97FF {
                    self.tile_data.set((addr - 0x8000) as usize, v);
                } else if 0x9800 <= addr && addr <= 0x9BFF {
                    self.bg_map_1.set((addr - 0x9800) as usize, v);
                } else if 0x9C00 <= addr && addr <= 0x9FFF {
                    self.bg_map_2.set((addr - 0x9C00) as usize, v);
                } else if 0xFE00 <= addr && addr <= 0xFE9F {
                    self.oam.set((addr - 0xFE00) as usize, v);
                } else if addr == 0xFF40 {
                    self.lcdc = LCDC::from_bits_truncate(v);
                } else if addr == 0xFF41 {
                    self.stat = STAT((v & 0x78) | (self.stat.0 & 0x07));
                    self.update_stat_interrupt();
                } else if addr == 0xFF42 {
                    self.scy = v;
                } else if addr == 0xFF43 {
                    self.scx = v;
                } else if addr == 0xFF44 {
                    // LY is driven by the scanline counter; only the comparison is refreshed
                    let equal = self.ly == self.lyc;
                    self.stat.set(LYC_EQUALS_LY, equal);
                    self.update_stat_interrupt();
                } else if addr == 0xFF45 {
                    self.lyc = v;
                    let equal = self.ly == self.lyc;
                    self.stat.set(LYC_EQUALS_LY, equal);
                    self.update_stat_interrupt();
                } else if addr == 0xFF46 {
                    // Begin an OAM DMA transfer
                    self.dma_transfer = DmaState::ActiveFirstRead { addr: v as u16 * 0x100 };
                } else if addr == 0xFF47 {
                    self.bgp = v;
                } else if addr == 0xFF48 {
                    self.obp0 = v;
                } else if addr == 0xFF49 {
                    self.obp1 = v;
                } else if addr == 0xFF4A {
                    self.wy = v;
                } else if addr == 0xFF4B {
                    self.wx = v;
                }
            },
            CpuOutputPins::Read { addr } => {
                if 0x8000 <= addr && addr <= 0x97FF {
                    *data = self.tile_data[(addr - 0x8000) as usize];
                } else if 0x9800 <= addr && addr <= 0x9BFF {
                    *data = self.bg_map_1[(addr - 0x9800) as usize];
                } else if 0x9C00 <= addr && addr <= 0x9FFF {
                    *data = self.bg_map_2[(addr - 0x9C00) as usize];
                } else if 0xFE00 <= addr && addr <= 0xFE9F {
                    *data = self.oam[(addr - 0xFE00) as usize];
                } else if addr == 0xFF40 {
                    *data = self.lcdc.bits();
                } else if addr == 0xFF41 {
                    *data = self.stat.bits();
                } else if addr == 0xFF42 {
                    *data = self.scy;
                } else if addr == 0xFF43 {
                    *data = self.scx;
                } else if addr == 0xFF44 {
                    *data = self.ly;
                } else if addr == 0xFF45 {
                    *data = self.lyc;
                } else if addr == 0xFF46 {
                    *data = match self.dma_transfer {
                        DmaState::Active { addr } | DmaState::ActiveFirstRead { addr } => (addr
                            / 0x100) as u8,
                        DmaState::Inactive => 0,
                    };
                } else if addr == 0xFF47 {
                    *data = self.bgp;
                } else if addr == 0xFF48 {
                    *data = self.obp0;
                } else if addr == 0xFF49 {
                    *data = self.obp1;
                } else if addr == 0xFF4A {
                    *data = self.wy;
                } else if addr == 0xFF4B {
                    *data = self.wx;
                }
            },
        }
        let irq = *interrupt_request;
        *interrupt_request = (irq & 0xFC) | (if self.vblank_irq {
            1u8
        } else {
            0u8
        }) | (if self.stat_irq {
            2u8
        } else {
            0u8
        });
    }

    /// One M-cycle of an OAM DMA transfer. The first cycle reads the source base; each later
    /// cycle stores the byte that arrived into OAM at `addr % 0x100` and reads the next
    /// address, until offset 0x9F, after which the engine stops and issues a read of 0.
    pub fn clock_dma(&mut self, input: CpuInputPins) -> (r: CpuOutputPins)
        requires
            old(self).wf(),
            !(old(self).dma_transfer is Inactive),
        ensures
            final(self).wf(),
            final(self).tile_data@ == old(self).tile_data@,
            final(self).bg_map_1@ == old(self).bg_map_1@,
            final(self).bg_map_2@ == old(self).bg_map_2@,
            final(self).frame.pixels@ == old(self).frame.pixels@,
            final(self).back_frame.pixels@ == old(self).back_frame.pixels@,
            final(self).lcdc == old(self).lcdc && final(self).stat == old(self).stat
                && final(self).scy == old(self).scy && final(self).scx == old(self).scx
                && final(self).ly == old(self).ly && final(self).lyc == old(self).lyc
                && final(self).wy == old(self).wy && final(self).wx == old(self).wx
                && final(self).bgp == old(self).bgp && final(self).obp0 == old(self).obp0
                && final(self).obp1 == old(self).obp1 && final(self).vblank_irq == old(
                self,
            ).vblank_irq && final(self).stat_irq == old(self).stat_irq,
            match old(self).dma_transfer {
                DmaState::ActiveFirstRead { addr } => {
                    &&& final(self).dma_transfer == DmaState::Active { addr }
                    &&& r == CpuOutputPins::Read { addr }
                    &&& final(self).oam@ == old(self).oam@
                },
                DmaState::Active { addr } => {
                    &&& final(self).oam@ == old(self).oam@.update((addr % 256) as int, input.data)
                    &&& if addr % 256 == 0x9F {
                        final(self).dma_transfer == DmaState::Inactive && r
                            == CpuOutputPins::Read { addr: 0 }
                    } else {
                        final(self).dma_transfer == DmaState::Active { addr: (addr + 1) as u16 }
                            && r == CpuOutputPins::Read { addr: (addr + 1) as u16 }
                    }
                },
                DmaState::Inactive => false,
            },
    {
        match self.dma_transfer {
            DmaState::Inactive => CpuOutputPins::Read { addr: 0 },
            DmaState::ActiveFirstRead { addr } => {
                self.dma_transfer = DmaState::Active { addr };
                CpuOutputPins::Read { addr }
            },
            DmaState::Active { addr } => {
                let i = (addr % 0x100) as usize;
                self.oam.set(i, input.data);
                if i == 0x9F {
                    self.dma_transfer = DmaState::Inactive;
                    CpuOutputPins::Read { addr: 0 }
                } else {
                    self.dma_transfer = DmaState::Active { addr: addr + 1 };
                    CpuOutputPins::Read { addr: addr + 1 }
                }
            },
        }
    }

    /// The tile number at `offset` of the map that the fetcher's counter selects: the BG map
    /// by LCDC.BG_TILEMAP_AREA, the window map by LCDC.WINDOW_TILEMAP_AREA.
    pub fn get_bg_tile_number_for(&self, offset: u16, counter: crate::pixel_fifo::TileCounter) -> (r: u8)
        requires
            self.wf(),
            offset < 0x400,
        ensures
            r == match counter {
                crate::pixel_fifo::TileCounter::Bg { .. } => self.spec_bg_tile_number(offset as int),
                crate::pixel_fifo::TileCounter::Window { .. } => self.spec_window_tile_number(
                    offset as int,
                ),
            },
    {
        match counter {
            crate::pixel_fifo::TileCounter::Bg { .. } => self.get_bg_tile_number(offset),
            crate::pixel_fifo::TileCounter::Window { .. } => self.get_window_tile_number(offset),
        }
    }
}

impl Default for PpuState {
    fn default() -> (r: PpuState)
        ensures
            r.wf(),
            r.lcdc.0 == 0x91,
            r.dma_transfer == DmaState::Inactive,
    {
        PpuState::new()
    }
}

} // verus!
