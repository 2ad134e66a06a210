//! The background/window fetcher with its pixel FIFO, and the sprite fetcher with its FIFO.
use vstd::prelude::*;
use crate::ppu::{Pixel, PpuState};
use crate::ppu_registers::{OamEntry, OBJ_BG_PRIORITY, OBJ_PALETTE_OBP1, OBJ_X_FLIP, OBJ_Y_FLIP};

verus! {

/// The 2-bit color of pixel `bit` (7 = leftmost) of a tile row given by its two bytes.
pub open spec fn tile_color(low: u8, high: u8, bit: u8) -> u8 {
    (((high >> bit) & 1) * 2 + ((low >> bit) & 1)) as u8
}

/// A tile color is two bits wide.
proof fn lemma_tile_color_bound(low: u8, high: u8, bit: u8)
    ensures
        (high >> bit) & 1 <= 1,
        (low >> bit) & 1 <= 1,
        tile_color(low, high, bit) <= 3,
{
    assert((high >> bit) & 1 <= 1 && (low >> bit) & 1 <= 1 && (((high >> bit) & 1) * 2 + ((low
        >> bit) & 1)) as u8 <= 3) by (bit_vector);
}

/// Where the BG fetcher takes tile numbers from.
#[derive(Clone, Copy, Debug, PartialEq, Eq, Structural)]
pub enum TileCounter {
    /// Background: `x_counter` counts tiles fetched on this line.
    Bg { x_counter: u8 },
    /// Window: `x_counter` counts tiles fetched since the window began; `window_line` is the
    /// window's own line counter.
    Window { x_counter: u8, window_line: u8 },
}

/// The value of a `BgPixelFifo`: its pixels and its fetcher state.
pub struct BgFifoView {
    pub pixels: Seq<Pixel>,
    pub phase: u8,
    pub tile_id: u8,
    pub low: u8,
    pub high: u8,
    pub counter: TileCounter,
}

/// Index in tile data of the low byte the fetcher `f` reads on screen line `line`.
pub open spec fn fetch_data_index(f: BgFifoView, state: &PpuState, line: u8) -> int {
    state.spec_bg_tile_data_address(f.tile_id) + 2 * tile_row(state, line, f.counter)
}

/// One fetcher step: read the tile number, the low byte, the high byte, then push the row once
/// the FIFO holds at most 8 pixels (else wait).
pub open spec fn bg_clock_spec(f: BgFifoView, state: &PpuState, line: u8) -> BgFifoView {
    if f.phase == 0 {
        BgFifoView { tile_id: tile_number_at(state, line, f.counter), phase: 1, ..f }
    } else if f.phase == 1 {
        BgFifoView { low: state.tile_data@[fetch_data_index(f, state, line)], phase: 2, ..f }
    } else if f.phase == 2 {
        BgFifoView { high: state.tile_data@[fetch_data_index(f, state, line) + 1], phase: 3, ..f }
    } else if f.pixels.len() <= 8 {
        BgFifoView {
            pixels: f.pixels + bg_row(f.low, f.high),
            phase: 0,
            counter: advance_counter(f.counter),
            ..f
        }
    } else {
        f
    }
}

/// An empty BG FIFO about to fetch the first background tile.
pub open spec fn bg_fifo_start() -> BgFifoView {
    BgFifoView {
        pixels: Seq::empty(),
        phase: 0,
        tile_id: 0,
        low: 0,
        high: 0,
        counter: TileCounter::Bg { x_counter: 0 },
    }
}

/// The background/window pixel FIFO (front at index 0) and its fetcher. The fetcher steps
/// through fetch-tile-id (0), fetch-low (1), fetch-high (2) and push (3).
#[derive(Debug)]
pub struct BgPixelFifo {
    pub pixels: Vec<Pixel>,
    pub phase: u8,
    pub tile_id: u8,
    pub low: u8,
    pub high: u8,
    pub counter: TileCounter,
}

/// The row of eight BG pixels of a tile row, leftmost first.
pub open spec fn bg_row(low: u8, high: u8) -> Seq<Pixel> {
    Seq::new(
        8,
        |i: int| Pixel { color: tile_color(low, high, (7 - i) as u8), palette: 0, bg_priority: false },
    )
}

/// Offset in the tile map of the next tile the fetcher reads, on screen line `line`.
pub open spec fn tile_map_offset(state: &PpuState, line: u8, counter: TileCounter) -> int {
    match counter {
        TileCounter::Bg { x_counter } => ((state.scy + line) % 256 / 8) * 32 + (x_counter
            + state.scx / 8) % 32,
        TileCounter::Window { x_counter, window_line } => (window_line / 8) * 32 + x_counter % 32,
    }
}

/// Row within the tile that the fetcher reads, on screen line `line`.
pub open spec fn tile_row(state: &PpuState, line: u8, counter: TileCounter) -> int {
    match counter {
        TileCounter::Bg { .. } => (state.scy + line) % 256 % 8,
        TileCounter::Window { window_line, .. } => (window_line % 8) as int,
    }
}

/// The tile number the fetcher reads: from the BG map or the window map by the counter.
pub open spec fn tile_number_at(state: &PpuState, line: u8, counter: TileCounter) -> u8 {
    match counter {
        TileCounter::Bg { .. } => state.spec_bg_tile_number(tile_map_offset(state, line, counter)),
        TileCounter::Window { .. } => state.spec_window_tile_number(
            tile_map_offset(state, line, counter),
        ),
    }
}

pub open spec fn advance_counter(counter: TileCounter) -> TileCounter {
    match counter {
        TileCounter::Bg { x_counter } => TileCounter::Bg { x_counter: x_counter.wrapping_add(1) },
        TileCounter::Window { x_counter, window_line } => TileCounter::Window {
            x_counter: x_counter.wrapping_add(1),
            window_line,
        },
    }
}

pub open spec fn all_wf(s: Seq<Pixel>) -> bool {
    forall|i: int| 0 <= i < s.len() ==> (#[trigger] s[i]).wf()
}

impl View for BgPixelFifo {
    type V = BgFifoView;

    open spec fn view(&self) -> BgFifoView {
        BgFifoView {
            pixels: self.pixels@,
            phase: self.phase,
            tile_id: self.tile_id,
            low: self.low,
            high: self.high,
            counter: self.counter,
        }
    }
}

impl BgPixelFifo {
    pub open spec fn wf(&self) -> bool {
        &&& self.pixels@.len() <= 16
        &&& all_wf(self.pixels@)
        &&& self.phase <= 3
    }

    /// Index in tile data of the byte the fetcher reads in phase 1 (phase 2 reads the next one).
    pub open spec fn data_index(&self, state: &PpuState, line: u8) -> int {
        state.spec_bg_tile_data_address(self.tile_id) + 2 * tile_row(state, line, self.counter)
    }

    /// An empty FIFO about to fetch the first background tile.
    pub fn new() -> (r: BgPixelFifo)
        ensures
            r.wf(),
            r.pixels@.len() == 0,
            r.phase == 0,
            r.counter == (TileCounter::Bg { x_counter: 0 }),
            r@ == bg_fifo_start(),
    {
        BgPixelFifo {
            pixels: Vec::new(),
            phase: 0,
            tile_id: 0,
            low: 0,
            high: 0,
            counter: TileCounter::Bg { x_counter: 0 },
        }
    }

    pub fn set_tile_map_offset(&mut self, counter: TileCounter)
        ensures
            final(self).counter == counter,
            final(self).pixels@ == old(self).pixels@,
            final(self).phase == old(self).phase,
            final(self).tile_id == old(self).tile_id,
            final(self).low == old(self).low,
            final(self).high == old(self).high,
    {
        self.counter = counter;
    }

    /// Restarts the fetch of the current tile.
    pub fn reset_fetcher(&mut self)
        ensures
            final(self).phase == 0,
            final(self).pixels@ == old(self).pixels@,
            final(self).counter == old(self).counter,
            final(self).tile_id == old(self).tile_id,
            final(self).low == old(self).low,
            final(self).high == old(self).high,
    {
        self.phase = 0;
    }

    /// Empties the FIFO and restarts the fetcher.
    pub fn clear(&mut self)
        ensures
            final(self).pixels@.len() == 0,
            final(self).phase == 0,
            final(self).counter == old(self).counter,
            final(self).tile_id == old(self).tile_id,
            final(self).low == old(self).low,
            final(self).high == old(self).high,
    {
        self.pixels.clear();
        self.phase = 0;
    }

    /// Takes the front pixel, if any.
    pub fn pop_pixel(&mut self) -> (r: Option<Pixel>)
        requires
            old(self).wf(),
        ensures
            final(self).wf(),
            old(self).pixels@.len() == 0 ==> r is None && final(self).pixels@ == old(self).pixels@,
            old(self).pixels@.len() > 0 ==> r == Some(old(self).pixels@[0]) && final(self).pixels@
                == old(self).pixels@.drop_first(),
            r matches Some(p) ==> p.wf(),
            final(self).phase == old(self).phase,
            final(self).counter == old(self).counter,
            final(self).tile_id == old(self).tile_id,
            final(self).low == old(self).low,
            final(self).high == old(self).high,
    {
        if self.pixels.len() == 0 {
            None
        } else {
            let p = self.pixels.remove(0);
            assert(self.pixels@ =~= old(self).pixels@.drop_first());
            Some(p)
        }
    }

    /// One step of the fetcher: read the tile number, the low byte, the high byte, then push
    /// the eight pixels of the row once the FIFO holds at most 8 (else wait in the push step).
    pub fn clock(&mut self, state: &PpuState, line: u8)
        requires
            old(self).wf(),
            state.wf(),
        ensures
            final(self).wf(),
            final(self)@ == bg_clock_spec(old(self)@, state, line),
            final(self).counter == if old(self).phase == 3 && old(self).pixels@.len() <= 8 {
                advance_counter(old(self).counter)
            } else {
                old(self).counter
            },
            old(self).phase == 0 ==> final(self).tile_id == tile_number_at(
                state,
                line,
                old(self).counter,
            ) && final(self).phase == 1 && final(self).pixels@ == old(self).pixels@
                && final(self).low == old(self).low && final(self).high == old(self).high,
            old(self).phase == 1 ==> final(self).low == state.tile_data@[old(self).data_index(
                state,
                line,
            )] && final(self).phase == 2 && final(self).pixels@ == old(self).pixels@
                && final(self).tile_id == old(self).tile_id && final(self).high == old(self).high,
            old(self).phase == 2 ==> final(self).high == state.tile_data@[old(self).data_index(
                state,
                line,
            ) + 1] && final(self).phase == 3 && final(self).pixels@ == old(self).pixels@
                && final(self).tile_id == old(self).tile_id && final(self).low == old(self).low,
            old(self).phase == 3 ==> final(self).tile_id == old(self).tile_id && final(self).low
                == old(self).low && final(self).high == old(self).high && if old(
                self,
            ).pixels@.len() <= 8 {
                final(self).phase == 0 && final(self).pixels@ == old(self).pixels@ + bg_row(
                    old(self).low,
                    old(self).high,
                )
            } else {
                final(self).phase == 3 && final(self).pixels@ == old(self).pixels@
            },
    {
        if self.phase == 0 {
            let offset: u16 = match self.counter {
                TileCounter::Bg { x_counter } => {
                    let y = ((state.scy as u16 + line as u16) % 256) / 8;
                    y * 32 + (x_counter as u16 + state.scx as u16 / 8) % 32
                },
                TileCounter::Window { x_counter, window_line } => {
                    (window_line as u16 / 8) * 32 + x_counter as u16 % 32
                },
            };
            self.tile_id = state.get_bg_tile_number_for(offset, self.counter);
            self.phase = 1;
        } else if self.phase == 1 {
            let i = self.fetch_index(state, line);
            self.low = state.tile_data[i];
            self.phase = 2;
        } else if self.phase == 2 {
            let i = self.fetch_index(state, line);
            self.high = state.tile_data[i + 1];
            self.phase = 3;
        } else if self.pixels.len() <= 8 {
            let ghost start = self.pixels@;
            let mut k: u8 = 0;
            while k < 8
                invariant
                    k <= 8,
                    start.len() <= 8,
                    all_wf(start),
                    self.pixels@ == start + bg_row(self.low, self.high).take(k as int),
                    self.counter == old(self).counter,
                    self.phase == old(self).phase,
                    self.tile_id == old(self).tile_id,
                    self.low == old(self).low,
                    self.high == old(self).high,
                decreases 8 - k,
            {
                let bit = 7 - k;
                let lo = self.low;
                let hi = self.high;
                proof {
                    lemma_tile_color_bound(lo, hi, bit);
                }
                let color = ((hi >> bit) & 1) * 2 + ((lo >> bit) & 1);
                self.pixels.push(Pixel { color, palette: 0, bg_priority: false });
                assert(bg_row(self.low, self.high).take(k as int + 1) =~= bg_row(
                    self.low,
                    self.high,
                ).take(k as int).push(Pixel { color, palette: 0, bg_priority: false }));
                k = k + 1;
            }
            assert(bg_row(self.low, self.high).take(8) =~= bg_row(self.low, self.high));
            assert forall|i: int| 0 <= i < self.pixels@.len() implies (
            #[trigger] self.pixels@[i]).wf() by {
                if i >= start.len() {
                    lemma_tile_color_bound(self.low, self.high, (7 - (i - start.len())) as u8);
                }
            }
            self.counter = match self.counter {
                TileCounter::Bg { x_counter } => TileCounter::Bg {
                    x_counter: x_counter.wrapping_add(1),
                },
                TileCounter::Window { x_counter, window_line } => TileCounter::Window {
                    x_counter: x_counter.wrapping_add(1),
                    window_line,
                },
            };
            self.phase = 0;
        }
    }

    fn fetch_index(&self, state: &PpuState, line: u8) -> (r: usize)
        requires
            state.wf(),
        ensures
            r == self.data_index(state, line),
            r + 1 < state.tile_data@.len(),
    {
        let row: usize = match self.counter {
            TileCounter::Bg { .. } => ((state.scy as usize + line as usize) % 256) % 8,
            TileCounter::Window { window_line, .. } => window_line as usize % 8,
        };
        state.bg_tile_data_address(self.tile_id) + 2 * row
    }
}

/// The eight pixels of a sprite row, leftmost first, with the sprite's palette and priority.
pub open spec fn sprite_row(sprite: OamEntry, low: u8, high: u8) -> Seq<Pixel> {
    Seq::new(
        8,
        |i: int|
            Pixel {
                color: tile_color(
                    low,
                    high,
                    (if sprite.flags.0 & OBJ_X_FLIP == OBJ_X_FLIP {
                        i
                    } else {
                        7 - i
                    }) as u8,
                ),
                palette: if sprite.flags.0 & OBJ_PALETTE_OBP1 == OBJ_PALETTE_OBP1 {
                    1
                } else {
                    0
                },
                bg_priority: sprite.flags.0 & OBJ_BG_PRIORITY == OBJ_BG_PRIORITY,
            },
    )
}

/// `old` padded to eight pixels, with each transparent pixel replaced by the one of `row`.
pub open spec fn mix_row(old: Seq<Pixel>, row: Seq<Pixel>) -> Seq<Pixel> {
    Seq::new(
        8,
        |i: int|
            if i < old.len() && old[i].color != 0 {
                old[i]
            } else {
                row[i]
            },
    )
}

/// The row of `sprite` that screen line `line` crosses, for sprites `height` lines tall.
pub open spec fn sprite_line(sprite: OamEntry, line: u8, height: u8) -> int {
    let r = ((line + 16 - sprite.ypos) % 256) % (height as int);
    if sprite.flags.0 & OBJ_Y_FLIP == OBJ_Y_FLIP {
        height - 1 - r
    } else {
        r
    }
}

/// Index in tile data of the low byte of the row of `sprite` on line `line`.
pub open spec fn sprite_data_index(state: &PpuState, sprite: OamEntry, line: u8) -> int {
    let h = state.spec_sprite_height();
    let tile = if h == 16 {
        sprite.tile & 0xFE
    } else {
        sprite.tile
    };
    tile * 16 + 2 * sprite_line(sprite, line, h)
}

/// The value of a `SpritePixelFifo`.
pub struct SpriteFifoView {
    pub pixels: Seq<Pixel>,
    pub sprite: OamEntry,
    pub step: u8,
    pub low: u8,
    pub high: u8,
}

/// One sprite fetcher step: the low byte at step 2, the high byte at step 4, the row mixed in at
/// step 5.
pub open spec fn sprite_clock_spec(f: SpriteFifoView, state: &PpuState, line: u8) -> SpriteFifoView {
    SpriteFifoView {
        step: f.step.wrapping_add(1),
        low: if f.step == 2 {
            state.tile_data@[sprite_data_index(state, f.sprite, line)]
        } else {
            f.low
        },
        high: if f.step == 4 {
            state.tile_data@[sprite_data_index(state, f.sprite, line) + 1]
        } else {
            f.high
        },
        pixels: if f.step == 5 {
            mix_row(f.pixels, sprite_row(f.sprite, f.low, f.high))
        } else {
            f.pixels
        },
        ..f
    }
}

/// An empty sprite FIFO with no sprite loaded.
pub open spec fn sprite_fifo_start() -> SpriteFifoView {
    SpriteFifoView {
        pixels: Seq::empty(),
        sprite: OamEntry { ypos: 0, xpos: 255, tile: 0, flags: crate::ppu_registers::OamEntryFlags(0) },
        step: 0,
        low: 0,
        high: 0,
    }
}

/// The sprite pixel FIFO (front at index 0) and the sprite fetcher, which takes six steps:
/// the low byte is read at step 2, the high byte at step 4, and the row is mixed in at step 5.
#[derive(Debug)]
pub struct SpritePixelFifo {
    pub pixels: Vec<Pixel>,
    pub sprite: OamEntry,
    pub step: u8,
    pub low: u8,
    pub high: u8,
}

impl View for SpritePixelFifo {
    type V = SpriteFifoView;

    open spec fn view(&self) -> SpriteFifoView {
        SpriteFifoView {
            pixels: self.pixels@,
            sprite: self.sprite,
            step: self.step,
            low: self.low,
            high: self.high,
        }
    }
}

impl SpritePixelFifo {
    pub open spec fn wf(&self) -> bool {
        &&& self.pixels@.len() <= 8
        &&& all_wf(self.pixels@)
    }

    pub fn new() -> (r: SpritePixelFifo)
        ensures
            r.wf(),
            r.pixels@.len() == 0,
            r.step == 0,
            r@ == sprite_fifo_start(),
    {
        SpritePixelFifo { pixels: Vec::new(), sprite: OamEntry::offscreen(), step: 0, low: 0, high: 0 }
    }

    /// Starts fetching `sprite`.
    pub fn load_sprite(&mut self, sprite: OamEntry)
        ensures
            final(self).sprite == sprite,
            final(self).step == 0,
            final(self).pixels@ == old(self).pixels@,
            final(self).low == old(self).low,
            final(self).high == old(self).high,
    {
        self.sprite = sprite;
        self.step = 0;
    }

    /// Takes the front pixel; an empty FIFO gives a transparent pixel.
    pub fn pop_pixel(&mut self) -> (r: Pixel)
        requires
            old(self).wf(),
        ensures
            final(self).wf(),
            r.wf(),
            old(self).pixels@.len() == 0 ==> r == (Pixel { color: 0, palette: 0, bg_priority: false })
                && final(self).pixels@ == old(self).pixels@,
            old(self).pixels@.len() > 0 ==> r == old(self).pixels@[0] && final(self).pixels@ == old(
                self,
            ).pixels@.drop_first(),
            final(self).sprite == old(self).sprite,
            final(self).step == old(self).step,
            final(self).low == old(self).low,
            final(self).high == old(self).high,
    {
        if self.pixels.len() == 0 {
            Pixel::blank()
        } else {
            let p = self.pixels.remove(0);
            assert(self.pixels@ =~= old(self).pixels@.drop_first());
            p
        }
    }

    /// One step of the sprite fetcher.
    pub fn clock(&mut self, state: &PpuState, line: u8)
        requires
            old(self).wf(),
            state.wf(),
        ensures
            final(self).wf(),
            final(self)@ == sprite_clock_spec(old(self)@, state, line),
            final(self).sprite == old(self).sprite,
            final(self).step == old(self).step.wrapping_add(1),
            final(self).low == if old(self).step == 2 {
                state.tile_data@[sprite_data_index(state, old(self).sprite, line)]
            } else {
                old(self).low
            },
            final(self).high == if old(self).step == 4 {
                state.tile_data@[sprite_data_index(state, old(self).sprite, line) + 1]
            } else {
                old(self).high
            },
            final(self).pixels@ == if old(self).step == 5 {
                mix_row(old(self).pixels@, sprite_row(old(self).sprite, old(self).low, old(self).high))
            } else {
                old(self).pixels@
            },
    {
        if self.step == 2 {
            let i = self.fetch_index(state, line);
            self.low = state.tile_data[i];
        } else if self.step == 4 {
            let i = self.fetch_index(state, line);
            self.high = state.tile_data[i + 1];
        } else if self.step == 5 {
            self.mix();
        }
        self.step = self.step.wrapping_add(1);
    }

    fn fetch_index(&self, state: &PpuState, line: u8) -> (r: usize)
        requires
            state.wf(),
        ensures
            r == sprite_data_index(state, self.sprite, line),
            r + 1 < state.tile_data@.len(),
    {
        let h = state.sprite_height();
        let r = (line as usize + 16 + 256 - self.sprite.ypos as usize) % 256 % (h as usize);
        let row = if self.sprite.flags.contains(OBJ_Y_FLIP) {
            h as usize - 1 - r
        } else {
            r
        };
        let tile = if h == 16 {
            self.sprite.tile & 0xFE
        } else {
            self.sprite.tile
        };
        state.sprite_tile_data_address(tile) + 2 * row
    }

    fn mix(&mut self)
        requires
            old(self).wf(),
        ensures
            final(self).wf(),
            final(self).pixels@ == mix_row(
                old(self).pixels@,
                sprite_row(old(self).sprite, old(self).low, old(self).high),
            ),
            final(self).sprite == old(self).sprite,
            final(self).step == old(self).step,
            final(self).low == old(self).low,
            final(self).high == old(self).high,
    {
        let ghost start = self.pixels@;
        let ghost row = sprite_row(self.sprite, self.low, self.high);
        let x_flip = self.sprite.flags.contains(OBJ_X_FLIP);
        let palette: u8 = if self.sprite.flags.contains(OBJ_PALETTE_OBP1) {
            1
        } else {
            0
        };
        let bg_priority = self.sprite.flags.contains(OBJ_BG_PRIORITY);
        while self.pixels.len() < 8
            invariant
                self.pixels@.len() <= 8,
                start.len() <= 8,
                self.pixels@.len() >= start.len(),
                forall|i: int| 0 <= i < start.len() ==> self.pixels@[i] == start[i],
                forall|i: int|
                    start.len() <= i < self.pixels@.len() ==> (#[trigger] self.pixels@[i]).color
                        == 0 && self.pixels@[i].wf(),
                all_wf(start),
                self.sprite == old(self).sprite,
                self.step == old(self).step,
                self.low == old(self).low,
                self.high == old(self).high,
            decreases 8 - self.pixels@.len(),
        {
            self.pixels.push(Pixel::blank());
        }
        assert forall|i: int| 0 <= i < self.pixels@.len() implies (
        #[trigger] self.pixels@[i]).wf() by {
            if i < start.len() {
                assert(self.pixels@[i] == start[i]);
            }
        }
        let mut k: usize = 0;
        while k < 8
            invariant
                k <= 8,
                start.len() <= 8,
                self.pixels@.len() == 8,
                row == sprite_row(self.sprite, self.low, self.high),
                x_flip == (self.sprite.flags.0 & OBJ_X_FLIP == OBJ_X_FLIP),
                palette == (if self.sprite.flags.0 & OBJ_PALETTE_OBP1 == OBJ_PALETTE_OBP1 {
                    1u8
                } else {
                    0u8
                }),
                bg_priority == (self.sprite.flags.0 & OBJ_BG_PRIORITY == OBJ_BG_PRIORITY),
                forall|i: int| 0 <= i < k ==> self.pixels@[i] == mix_row(start, row)[i],
                forall|i: int| k <= i < 8 && i < start.len() ==> self.pixels@[i] == start[i],
                forall|i: int| k <= i < 8 && i >= start.len() ==> self.pixels@[i].color == 0,
                all_wf(self.pixels@),
                self.sprite == old(self).sprite,
                self.step == old(self).step,
                self.low == old(self).low,
                self.high == old(self).high,
            decreases 8 - k,
        {
            if self.pixels[k].color == 0 {
                let bit: u8 = if x_flip {
                    k as u8
                } else {
                    7 - k as u8
                };
                let lo = self.low;
                let hi = self.high;
                proof {
                    lemma_tile_color_bound(lo, hi, bit);
                }
                let color = ((hi >> bit) & 1) * 2 + ((lo >> bit) & 1);
                self.pixels.set(k, Pixel { color, palette, bg_priority });
            }
            k = k + 1;
        }
        assert(self.pixels@ =~= mix_row(start, row));
    }
}

} // verus!
