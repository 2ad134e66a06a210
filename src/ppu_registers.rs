//! PPU control registers and OAM entries, as bytes with named bit masks.
use vstd::prelude::*;

verus! {

pub const LCD_ENABLE: u8 = 0x80;
pub const WINDOW_TILEMAP_AREA: u8 = 0x40;
pub const WINDOW_ENABLE: u8 = 0x20;
pub const BG_TILE_DATA_AREA: u8 = 0x10;
pub const BG_TILEMAP_AREA: u8 = 0x08;
pub const OBJ_SIZE: u8 = 0x04;
pub const OBJ_ENABLE: u8 = 0x02;
pub const BG_ENABLE: u8 = 0x01;

pub const LYC_INTERRUPT_ENABLE: u8 = 0x40;
pub const OAM_INTERRUPT_ENABLE: u8 = 0x20;
pub const VBLANK_INTERRUPT_ENABLE: u8 = 0x10;
pub const HBLANK_INTERRUPT_ENABLE: u8 = 0x08;
pub const LYC_EQUALS_LY: u8 = 0x04;
/// The bits of STAT that are not the mode.
pub const MODE_BITMASK: u8 = 0xFC;

pub const OBJ_BG_PRIORITY: u8 = 0x80;
pub const OBJ_Y_FLIP: u8 = 0x40;
pub const OBJ_X_FLIP: u8 = 0x20;
pub const OBJ_PALETTE_OBP1: u8 = 0x10;

/// LCD control register (0xFF40). Every bit is meaningful.
#[derive(Clone, Copy, Debug, PartialEq, Eq, Structural)]
pub struct LCDC(pub u8);

impl LCDC {
    /// LCD on, BG tile data at 0x8000 unsigned, background enabled.
    pub fn new() -> (r: LCDC)
        ensures
            r.0 == LCD_ENABLE | BG_TILE_DATA_AREA | BG_ENABLE,
    {
        LCDC(LCD_ENABLE | BG_TILE_DATA_AREA | BG_ENABLE)
    }

    pub fn from_bits_truncate(v: u8) -> (r: LCDC)
        ensures
            r.0 == v,
    {
        LCDC(v)
    }

    pub fn bits(self) -> (r: u8)
        ensures
            r == self.0,
    {
        self.0
    }

    /// True when every bit of `mask` is set.
    pub fn contains(self, mask: u8) -> (r: bool)
        ensures
            r == (self.0 & mask == mask),
    {
        self.0 & mask == mask
    }
}

impl Default for LCDC {
    fn default() -> (r: LCDC)
        ensures
            r.0 == LCD_ENABLE | BG_TILE_DATA_AREA | BG_ENABLE,
    {
        LCDC::new()
    }
}

/// LCD status register (0xFF41): interrupt enables, the LY=LYC flag and the mode in bits 0-1.
/// Bit 7 does not exist and is always clear.
#[derive(Clone, Copy, Debug, PartialEq, Eq, Structural)]
pub struct STAT(pub u8);

impl STAT {
    /// A STAT value from a byte; bit 7 is dropped.
    pub fn from_bits_truncate(v: u8) -> (r: STAT)
        ensures
            r.0 == v & 0x7F,
    {
        STAT(v & 0x7F)
    }

    pub fn bits(self) -> (r: u8)
        ensures
            r == self.0,
    {
        self.0
    }

    /// True when every bit of `mask` is set.
    pub fn contains(self, mask: u8) -> (r: bool)
        ensures
            r == (self.0 & mask == mask),
    {
        self.0 & mask == mask
    }

    /// Sets or clears the bits of `mask`.
    pub fn set(&mut self, mask: u8, value: bool)
        ensures
            final(self).0 == if value {
                old(self).0 | mask
            } else {
                old(self).0 & !mask
            },
    {
        if value {
            self.0 = self.0 | mask;
        } else {
            self.0 = self.0 & !mask;
        }
    }

    /// Replaces the mode bits (0-1) and keeps the rest.
    pub fn set_mode(&mut self, mode: STAT)
        requires
            mode.0 <= 3,
        ensures
            final(self).0 == (old(self).0 & MODE_BITMASK) | mode.0,
    {
        self.0 = (self.0 & MODE_BITMASK) | mode.0;
    }

    /// Only the mode bits.
    pub fn mode(&self) -> (r: STAT)
        ensures
            r.0 == self.0 & 0x03,
    {
        STAT(self.0 & 0x03)
    }
}

impl Default for STAT {
    fn default() -> (r: STAT)
        ensures
            r.0 == 0,
    {
        STAT(0)
    }
}

/// Attribute flags of a sprite (upper nibble of the fourth OAM byte).
#[derive(Clone, Copy, Debug, PartialEq, Eq, Structural)]
pub struct OamEntryFlags(pub u8);

impl OamEntryFlags {
    pub fn from_bits_truncate(v: u8) -> (r: OamEntryFlags)
        ensures
            r.0 == v & 0xF0,
    {
        OamEntryFlags(v & 0xF0)
    }

    /// True when every bit of `mask` is set.
    pub fn contains(self, mask: u8) -> (r: bool)
        ensures
            r == (self.0 & mask == mask),
    {
        self.0 & mask == mask
    }
}

impl Default for OamEntryFlags {
    fn default() -> (r: OamEntryFlags)
        ensures
            r.0 == 0,
    {
        OamEntryFlags(0)
    }
}

/// One of the 40 sprite descriptors of OAM.
#[derive(Clone, Copy, Debug, PartialEq, Eq, Structural)]
pub struct OamEntry {
    pub ypos: u8,
    pub xpos: u8,
    pub tile: u8,
    pub flags: OamEntryFlags,
}

impl Default for OamEntry {
    fn default() -> (r: OamEntry)
        ensures
            r == (OamEntry { ypos: 0, xpos: 0, tile: 0, flags: OamEntryFlags(0) }),
    {
        OamEntry { ypos: 0, xpos: 0, tile: 0, flags: OamEntryFlags(0) }
    }
}

impl OamEntry {
    /// An unused slot: placed at x = 255, where it is never drawn.
    pub fn offscreen() -> (r: OamEntry)
        ensures
            r == (OamEntry { ypos: 0, xpos: 255, tile: 0, flags: OamEntryFlags(0) }),
    {
        OamEntry { ypos: 0, xpos: 255, tile: 0, flags: OamEntryFlags(0) }
    }
}

} // verus!
