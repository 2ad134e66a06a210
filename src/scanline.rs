//! The scanline driver: OAM scan, pixel drawing and blanking, one dot per resume.
use vstd::prelude::*;
use crate::pixel_fifo::{
    BgFifoView,
    BgPixelFifo,
    SpriteFifoView,
    SpritePixelFifo,
    TileCounter,
    bg_clock_spec,
    bg_fifo_start,
    sprite_clock_spec,
    sprite_fifo_start,
};
use crate::ppu::{Pixel, PpuState, lemma_stat_bits, mixed_shade, spec_color};
use crate::ppu_registers::{OamEntry, OamEntryFlags, WINDOW_ENABLE};

verus! {

pub const DOTS_PER_LINE: u16 = 456;
pub const LINES_PER_FRAME: u8 = 154;
pub const VISIBLE_LINES: u8 = 144;
pub const OAM_SCAN_DOTS: u16 = 80;
pub const SPRITE_FETCH_DOTS: u8 = 6;
/// Dots at the start of mode 3 spent on the first tile fetch, whose pixels are not shown.
pub const DRAW_STARTUP_DOTS: u8 = 6;
pub const MAX_SPRITES_PER_LINE: usize = 10;

/// The (line, dot) position that follows (`line`, `dot`): 456 dots per line, 154 lines per frame.
pub open spec fn next_position(line: u8, dot: u16) -> (u8, u16) {
    if dot + 1 >= 456 {
        (if line + 1 >= 154 { 0u8 } else { (line + 1) as u8 }, 0u16)
    } else {
        (line, (dot + 1) as u16)
    }
}

/// The position after `n` dots.
pub open spec fn position_after(line: u8, dot: u16, n: nat) -> (u8, u16)
    decreases n,
{
    if n == 0 {
        (line, dot)
    } else {
        let (l, d) = next_position(line, dot);
        position_after(l, d, (n - 1) as nat)
    }
}

/// The STAT mode once the work of dots before `dot` on `line` is done: 1 in VBlank lines,
/// 2 during the OAM scan, then 3 while drawing and 0 in HBlank.
pub open spec fn expected_mode(line: u8, dot: u16, drawing: bool) -> u8 {
    if line >= 144 {
        1
    } else if dot <= 80 {
        2
    } else if drawing {
        3
    } else {
        0
    }
}

/// The scanline driver's own state: position in the frame, the OAM scan buffer, the FIFOs and
/// the drawing progress of the current line.
#[derive(Debug)]
pub struct PpuGenerator {
    pub line: u8,
    /// Dots of `line` already run.
    pub dot: u16,
    /// LY has equalled WY during this frame.
    pub wy_passed: bool,
    /// Lines of this frame that showed the window.
    pub window_lines: u8,
    pub sprite_buffer: Vec<OamEntry>,
    pub sprite_buffer_len: usize,
    /// Mode 3 is in progress.
    pub drawing: bool,
    /// Dots of the start-up fetch of mode 3 still to run.
    pub startup: u8,
    /// Next pixel column; starts at -(SCX % 8) so that those pixels are discarded.
    pub x: i16,
    /// Drawing steps taken, counted from the end of the OAM scan; the BG fetcher steps on even
    /// counts.
    pub cycles: u16,
    pub inside_window: bool,
    pub bg_fifo: BgPixelFifo,
    pub sprite_fifo: SpritePixelFifo,
    /// Steps of the current sprite fetch done (0: none in progress).
    pub sprite_clocks: u8,
    /// The BG pixel waiting for the sprite fetch to finish.
    pub held_bg: Pixel,
    /// X position of the sprite being fetched.
    pub held_xpos: u8,
}

/// The value of a `PpuGenerator`, field by field.
pub struct GenView {
    pub line: u8,
    pub dot: u16,
    pub wy_passed: bool,
    pub window_lines: u8,
    pub sprite_buffer: Seq<OamEntry>,
    pub sprite_buffer_len: usize,
    pub drawing: bool,
    pub startup: u8,
    pub x: i16,
    pub cycles: u16,
    pub inside_window: bool,
    pub bg: BgFifoView,
    pub spr: SpriteFifoView,
    pub sprite_clocks: u8,
    pub held_bg: Pixel,
    pub held_xpos: u8,
}

impl View for PpuGenerator {
    type V = GenView;

    open spec fn view(&self) -> GenView {
        GenView {
            line: self.line,
            dot: self.dot,
            wy_passed: self.wy_passed,
            window_lines: self.window_lines,
            sprite_buffer: self.sprite_buffer@,
            sprite_buffer_len: self.sprite_buffer_len,
            drawing: self.drawing,
            startup: self.startup,
            x: self.x,
            cycles: self.cycles,
            inside_window: self.inside_window,
            bg: self.bg_fifo@,
            spr: self.sprite_fifo@,
            sprite_clocks: self.sprite_clocks,
            held_bg: self.held_bg,
            held_xpos: self.held_xpos,
        }
    }
}

/// The driver as `gen` creates it: top of the frame, nothing buffered, not drawing.
pub open spec fn gen_start() -> GenView {
    GenView {
        line: 0,
        dot: 0,
        wy_passed: false,
        window_lines: 0,
        sprite_buffer: empty_sprite_buffer(),
        sprite_buffer_len: 0,
        drawing: false,
        startup: 0,
        x: 0,
        cycles: 0,
        inside_window: false,
        bg: bg_fifo_start(),
        spr: sprite_fifo_start(),
        sprite_clocks: 0,
        held_bg: Pixel { color: 0, palette: 0, bg_priority: false },
        held_xpos: 0,
    }
}

/// Index of the first buffered sprite from slot `i` on whose x position is at most x + 8.
pub open spec fn first_sprite_from(buf: Seq<OamEntry>, x: i16, i: int) -> Option<int>
    decreases buf.len() - i,
{
    if i < 0 || i >= buf.len() {
        None
    } else if buf[i].xpos as int <= x + 8 {
        Some(i)
    } else {
        first_sprite_from(buf, x, i + 1)
    }
}

/// `s` without its first `n` elements (empty when it has fewer).
pub open spec fn drop_n(s: Seq<Pixel>, n: int) -> Seq<Pixel> {
    if n >= s.len() {
        Seq::empty()
    } else {
        s.skip(n)
    }
}

/// Finishes the pixel at column x from the BG pixel `bg_pix` and the front sprite pixel: it
/// goes to the back frame when 0 <= x, the window starts when enabled, WY has been passed and
/// x >= WX - 7, and x moves on by one.
pub open spec fn spec_finish(g: GenView, s: &PpuState, frame: Seq<u32>, bg_pix: Pixel) -> (
    GenView,
    Seq<u32>,
) {
    let spr_pix = if g.spr.pixels.len() > 0 {
        g.spr.pixels[0]
    } else {
        Pixel { color: 0, palette: 0, bg_priority: false }
    };
    let spr = if g.spr.pixels.len() > 0 {
        SpriteFifoView { pixels: g.spr.pixels.drop_first(), ..g.spr }
    } else {
        g.spr
    };
    let frame1 = if g.x >= 0 {
        frame.update(
            g.line * 160 + g.x,
            spec_color(mixed_shade(s.bgp, s.obp0, s.obp1, bg_pix, spr_pix)),
        )
    } else {
        frame
    };
    let win = s.lcdc.0 & WINDOW_ENABLE == WINDOW_ENABLE && g.wy_passed && g.x >= s.wx - 7
        && !g.inside_window;
    let bg = if win {
        BgFifoView {
            pixels: Seq::empty(),
            phase: 0,
            counter: TileCounter::Window { x_counter: 0, window_line: g.window_lines },
            ..g.bg
        }
    } else {
        g.bg
    };
    (
        GenView {
            spr,
            bg,
            inside_window: g.inside_window || win,
            x: (g.x + 1) as i16,
            cycles: g.cycles.wrapping_add(1),
            ..g
        },
        frame1,
    )
}

/// One dot of mode 3, given the driver `g`, the PPU `s` and the back frame `frame`.
/// The start-up fetch runs first and shows nothing. A sprite fetch in progress takes its next
/// step; after its sixth, the sprite's columns left of the screen are dropped and the held BG
/// pixel is finished. Otherwise, once x reaches 160, drawing ends (and the window line counter
/// advances if the window was shown); else the BG fetcher steps on even counts and the front BG
/// pixel is taken, if there is one: the first buffered sprite at x + 8 or before then starts its
/// fetch (the BG fetcher restarts, the sprite is moved off screen, the BG pixel is held), or,
/// with no such sprite, the pixel is finished.
pub open spec fn spec_draw_dot(g: GenView, s: &PpuState, frame: Seq<u32>) -> (GenView, Seq<u32>) {
    if g.startup > 0 {
        (GenView { startup: (g.startup - 1) as u8, ..g }, frame)
    } else if 0 < g.sprite_clocks < 6 {
        (
            GenView {
                spr: sprite_clock_spec(g.spr, s, g.line),
                sprite_clocks: (g.sprite_clocks + 1) as u8,
                ..g
            },
            frame,
        )
    } else if g.sprite_clocks == 6 {
        let d: int = if g.held_xpos < 8 {
            8 - g.held_xpos
        } else {
            0
        };
        spec_finish(
            GenView {
                sprite_clocks: 0,
                spr: SpriteFifoView { pixels: drop_n(g.spr.pixels, d), ..g.spr },
                ..g
            },
            s,
            frame,
            g.held_bg,
        )
    } else if g.x >= 160 {
        (
            GenView {
                window_lines: if g.inside_window && g.window_lines < 144 {
                    (g.window_lines + 1) as u8
                } else {
                    g.window_lines
                },
                drawing: false,
                ..g
            },
            frame,
        )
    } else {
        let bg1 = if g.cycles % 2 == 0 {
            bg_clock_spec(g.bg, s, g.line)
        } else {
            g.bg
        };
        if bg1.pixels.len() == 0 {
            (GenView { bg: bg1, cycles: g.cycles.wrapping_add(1), ..g }, frame)
        } else {
            let px = bg1.pixels[0];
            let bg2 = BgFifoView { pixels: bg1.pixels.drop_first(), ..bg1 };
            match first_sprite_from(g.sprite_buffer, g.x, 0) {
                Some(i) => {
                    let sp = g.sprite_buffer[i];
                    (
                        GenView {
                            bg: BgFifoView { phase: 0, ..bg2 },
                            spr: sprite_clock_spec(
                                SpriteFifoView { sprite: sp, step: 0, ..g.spr },
                                s,
                                g.line,
                            ),
                            held_xpos: sp.xpos,
                            sprite_buffer: g.sprite_buffer.update(i, OamEntry { xpos: 255, ..sp }),
                            held_bg: px,
                            sprite_clocks: 1,
                            ..g
                        },
                        frame,
                    )
                },
                None => spec_finish(GenView { bg: bg2, ..g }, s, frame, px),
            }
        }
    }
}

/// Entering mode 3 at dot 80: a 6-dot start-up fetch, empty FIFOs, background fetch from tile
/// 0, x at -(SCX % 8).
pub open spec fn spec_start_drawing(g: GenView, s: &PpuState) -> GenView {
    GenView {
        bg: bg_fifo_start(),
        spr: sprite_fifo_start(),
        x: -((s.scx % 8) as int) as i16,
        cycles: 80,
        inside_window: false,
        drawing: true,
        sprite_clocks: 0,
        startup: 6,
        ..g
    }
}

/// The driver after the first dot's line-start work: not drawing; at line 0 the window
/// tracking restarts; a visible line empties the sprite buffer, leaves the window and records
/// whether LY equals WY.
pub open spec fn spec_start_line(g: GenView, s: &PpuState) -> GenView {
    let g1 = GenView {
        drawing: false,
        sprite_clocks: 0,
        wy_passed: if g.line == 0 {
            false
        } else {
            g.wy_passed
        },
        window_lines: if g.line == 0 {
            0
        } else {
            g.window_lines
        },
        ..g
    };
    if g.line < 144 {
        GenView {
            wy_passed: g1.wy_passed || g.line == s.wy,
            sprite_buffer: empty_sprite_buffer(),
            sprite_buffer_len: 0,
            inside_window: false,
            ..g1
        }
    } else {
        g1
    }
}

/// The driver after the work of its current dot, before moving on: line start at dot 0, an
/// OAM entry on each even dot before 80, mode 3 from dot 80 while drawing, nothing otherwise.
pub open spec fn spec_dot_work(g0: GenView, s0: &PpuState) -> GenView {
    let g = if g0.dot == 0 {
        spec_start_line(g0, s0)
    } else {
        g0
    };
    if g0.line < 144 {
        if g0.dot < 80 {
            if g0.dot % 2 == 0 {
                let (b, n) = scan_step(
                    g.sprite_buffer,
                    g.sprite_buffer_len,
                    s0.spec_oam((g0.dot / 2) as int),
                    g.line,
                    s0.spec_sprite_height(),
                );
                GenView { sprite_buffer: b, sprite_buffer_len: n, ..g }
            } else {
                g
            }
        } else if g0.dot == 80 {
            spec_draw_dot(spec_start_drawing(g0, s0), s0, s0.back_frame.pixels@).0
        } else if g0.drawing {
            spec_draw_dot(g0, s0, s0.back_frame.pixels@).0
        } else {
            g0
        }
    } else {
        g
    }
}

/// Moving on to the next dot; a line that ends stops drawing.
pub open spec fn step_position(g: GenView) -> GenView {
    if g.dot + 1 >= 456 {
        GenView {
            dot: 0,
            line: if g.line + 1 >= 154 {
                0
            } else {
                (g.line + 1) as u8
            },
            drawing: false,
            sprite_clocks: 0,
            ..g
        }
    } else {
        GenView { dot: (g.dot + 1) as u16, ..g }
    }
}

/// A fresh scanline driver at the top of a frame.
pub fn gen() -> (r: PpuGenerator)
    ensures
        r@ == gen_start(),
        r.bg_fifo.wf() && r.sprite_fifo.wf(),
        forall|s: PpuState| s.wf() ==> #[trigger] r.wf(&s),
{
    let mut sprite_buffer: Vec<OamEntry> = Vec::new();
    let mut i: usize = 0;
    while i < 10
        invariant
            i <= 10,
            sprite_buffer@.len() == i,
            forall|j: int| 0 <= j < i ==> sprite_buffer@[j] == empty_sprite_buffer()[j],
        decreases 10 - i,
    {
        sprite_buffer.push(OamEntry::offscreen());
        i = i + 1;
    }
    assert(sprite_buffer@ =~= empty_sprite_buffer());
    PpuGenerator {
        line: 0,
        dot: 0,
        wy_passed: false,
        window_lines: 0,
        sprite_buffer,
        sprite_buffer_len: 0,
        drawing: false,
        startup: 0,
        x: 0,
        cycles: 0,
        inside_window: false,
        bg_fifo: BgPixelFifo::new(),
        sprite_fifo: SpritePixelFifo::new(),
        sprite_clocks: 0,
        held_bg: Pixel::blank(),
        held_xpos: 0,
    }
}

/// Whether a sprite is picked by the OAM scan of screen line `line`: x > 0 and line + 16 within
/// [y, y + height).
pub open spec fn sprite_on_line(e: OamEntry, line: u8, height: u8) -> bool {
    e.xpos > 0 && line + 16 >= e.ypos && line + 16 < e.ypos + height
}

/// The sprite buffer at the start of a visible line: ten off-screen slots.
pub open spec fn empty_sprite_buffer() -> Seq<OamEntry> {
    Seq::new(10, |i: int| OamEntry { ypos: 0, xpos: 255, tile: 0, flags: OamEntryFlags(0) })
}

/// The sprite buffer and its length after the OAM scan looks at entry `e`: a sprite on the
/// line is appended while fewer than 10 are held.
pub open spec fn scan_step(buf: Seq<OamEntry>, len: usize, e: OamEntry, line: u8, height: u8) -> (
    Seq<OamEntry>,
    usize,
) {
    if len < 10 && sprite_on_line(e, line, height) {
        (buf.update(len as int, e), (len + 1) as usize)
    } else {
        (buf, len)
    }
}

/// Frame `b` differs from frame `a` at most in row `row`.
pub open spec fn same_but_row(a: Seq<u32>, b: Seq<u32>, row: int) -> bool {
    &&& a.len() == b.len()
    &&& forall|i: int| 0 <= i < a.len() && i / 160 != row ==> #[trigger] b[i] == a[i]
}

/// The video memories of `b` are those of `a`.
pub open spec fn same_video_memory(a: &PpuState, b: &PpuState) -> bool {
    &&& a.tile_data@ == b.tile_data@
    &&& a.bg_map_1@ == b.bg_map_1@
    &&& a.bg_map_2@ == b.bg_map_2@
    &&& a.oam@ == b.oam@
}

/// The CPU-written registers of `b` are those of `a`.
pub open spec fn same_cpu_registers(a: &PpuState, b: &PpuState) -> bool {
    &&& a.lcdc == b.lcdc
    &&& a.scy == b.scy
    &&& a.scx == b.scx
    &&& a.lyc == b.lyc
    &&& a.wy == b.wy
    &&& a.wx == b.wx
    &&& a.bgp == b.bgp
    &&& a.obp0 == b.obp0
    &&& a.obp1 == b.obp1
    &&& a.dma_transfer == b.dma_transfer
}

/// The mode bits are a number from 0 to 3.
pub proof fn lemma_mode_bits(s: u8)
    ensures
        s & 0x03 <= 3,
{
    assert(s & 0x03 <= 3) by (bit_vector);
}

/// Within a line, `k` dots from dot `dot` stay on that line.
pub proof fn lemma_within_line(line: u8, dot: u16, k: nat)
    requires
        dot + k < 456,
    ensures
        position_after(line, dot, k) == (line, (dot + k) as u16),
    decreases k,
{
    if k > 0 {
        lemma_within_line(line, (dot + 1) as u16, (k - 1) as nat);
    }
}

/// Running `a` dots and then `b` dots is running `a + b` dots.
pub proof fn lemma_position_split(line: u8, dot: u16, a: nat, b: nat)
    ensures
        position_after(line, dot, a + b) == ({
            let (l, d) = position_after(line, dot, a);
            position_after(l, d, b)
        }),
    decreases a,
{
    if a > 0 {
        let (l, d) = next_position(line, dot);
        lemma_position_split(l, d, (a - 1) as nat, b);
        assert((a + b - 1) as nat == (a - 1) as nat + b);
    }
}

/// A scanline lasts exactly 456 dots: from its first dot, the line stays the same for 455 more
/// dots, and the 456th dot ends on the first dot of the next line (after line 153, line 0).
pub proof fn lemma_scanline_is_456_dots(line: u8)
    requires
        line < 154,
    ensures
        forall|k: nat| k < 456 ==> #[trigger] position_after(line, 0, k) == (line, k as u16),
        position_after(line, 0, 456) == (if line == 153 { 0u8 } else { (line + 1) as u8 }, 0u16),
{
    assert forall|k: nat| k < 456 implies #[trigger] position_after(line, 0, k) == (
    line,
    k as u16,
    ) by {
        lemma_within_line(line, 0, k);
    }
    lemma_position_split(line, 0, 455, 1);
    lemma_within_line(line, 0, 455);
    assert(position_after(line, 455, 1) == position_after(
        next_position(line, 455).0,
        next_position(line, 455).1,
        0,
    ));
}

/// After `n` whole lines from the top of the frame, the driver is at the start of line `n`.
pub proof fn lemma_lines_from_top(n: nat)
    requires
        n < 154,
    ensures
        position_after(0, 0, 456 * n) == (n as u8, 0u16),
    decreases n,
{
    if n > 0 {
        lemma_lines_from_top((n - 1) as nat);
        assert(456 * n == 456 * (n - 1) + 456) by (nonlinear_arith);
        lemma_position_split(0, 0, 456 * ((n - 1) as nat), 456);
        lemma_scanline_is_456_dots((n - 1) as u8);
    }
}

/// A frame lasts 154 scanlines of 456 dots (70224 dots): it visits lines 0 to 153 in order and
/// then starts again at line 0.
pub proof fn lemma_frame_is_154_lines()
    ensures
        forall|n: nat| n < 154 ==> #[trigger] position_after(0, 0, 456 * n) == (n as u8, 0u16),
        position_after(0, 0, 456 * 154) == (0u8, 0u16),
{
    assert forall|n: nat| n < 154 implies #[trigger] position_after(0, 0, 456 * n) == (
    n as u8,
    0u16,
    ) by {
        lemma_lines_from_top(n);
    }
    lemma_lines_from_top(153);
    lemma_position_split(0, 0, 456 * 153, 456);
    lemma_scanline_is_456_dots(153);
}

/// At every dot boundary LY is a line of the frame (0 to 153) and the STAT mode is one of
/// 0, 1, 2, 3: past a line's first dot, the one of the phase reached.
pub proof fn lemma_ly_and_mode_in_range(g: &PpuGenerator, s: &PpuState)
    requires
        g.wf(s),
    ensures
        s.ly <= 153,
        s.stat.0 & 0x03 <= 3,
        g.dot > 0 ==> s.stat.0 & 0x03 == expected_mode(g.line, g.dot, g.drawing),
{
    lemma_mode_bits(s.stat.0);
}

impl PpuGenerator {
    /// Everything of `wf` but the relation of LY and STAT to the position.
    pub open spec fn core_wf(&self, state: &PpuState) -> bool {
        &&& state.wf()
        &&& self.line < 154
        &&& self.dot < 456
        &&& self.sprite_buffer@.len() == 10
        &&& self.sprite_buffer_len <= 10
        &&& self.bg_fifo.wf()
        &&& self.sprite_fifo.wf()
        &&& self.held_bg.wf()
        &&& self.sprite_clocks <= 6
        &&& self.window_lines <= 144
        &&& (self.sprite_clocks > 0 ==> self.drawing && self.x < 160)
        &&& self.startup <= 6
        &&& (self.startup > 0 ==> self.sprite_clocks == 0)
    }

    /// Work done at the first dot of a line: LY is set (with the LY=LYC flag); a visible line
    /// enters the OAM scan with an empty sprite buffer; line 144 enters VBlank, swaps the
    /// frames and raises the VBlank line; line 0 lowers it and restarts the window tracking.
    fn start_line(&mut self, state: &mut PpuState)
        requires
            old(self).core_wf(old(state)),
            old(self).dot == 0,
        ensures
            final(self).core_wf(final(state)),
            final(self)@ == spec_start_line(old(self)@, old(state)),
            final(self).line == old(self).line && final(self).dot == old(self).dot,
            !final(self).drawing,
            final(self).sprite_clocks == 0,
            final(state).ly == old(self).line,
            old(self).line < 144 ==> final(self).sprite_buffer@ == empty_sprite_buffer()
                && final(self).sprite_buffer_len == 0,
            (final(state).stat.0 & 0x04 != 0) == (final(state).ly == final(state).lyc),
            final(state).stat.0 & 0x03 == if old(self).line < 144 {
                2u8
            } else {
                1u8
            },
            final(state).vblank_irq == if old(self).line == 144 {
                true
            } else if old(self).line == 0 {
                false
            } else {
                old(state).vblank_irq
            },
            final(state).frame.pixels@ == if old(self).line == 144 {
                old(state).back_frame.pixels@
            } else {
                old(state).frame.pixels@
            },
            final(state).back_frame.pixels@ == if old(self).line == 144 {
                old(state).frame.pixels@
            } else {
                old(state).back_frame.pixels@
            },
            same_video_memory(final(state), old(state)),
            same_cpu_registers(final(state), old(state)),
    {
        let line = self.line;
        self.drawing = false;
        self.sprite_clocks = 0;
        if line == 0 {
            state.vblank_irq = false;
            self.wy_passed = false;
            self.window_lines = 0;
        }
        if line < 144 {
            state.set_ly(line);
            if state.ly == state.wy {
                self.wy_passed = true;
            }
            let ghost s1 = state.stat.0;
            state.set_mode(2);
            proof {
                lemma_stat_bits(s1, 2, true);
                lemma_stat_bits(old(state).stat.0, 0, line == state.lyc);
            }
            let mut i: usize = 0;
            let ghost gb = self@;
            while i < 10
                invariant
                    i <= 10,
                    self@ == (GenView { sprite_buffer: self.sprite_buffer@, ..gb }),
                    self.core_wf(state),
                    forall|j: int| 0 <= j < i ==> self.sprite_buffer@[j] == empty_sprite_buffer()[j],
                    self.line == line,
                    self.dot == 0,
                    !self.drawing,
                    self.sprite_clocks == 0,
                decreases 10 - i,
            {
                self.sprite_buffer.set(i, OamEntry::offscreen());
                i = i + 1;
            }
            assert(self.sprite_buffer@ =~= empty_sprite_buffer());
            self.sprite_buffer_len = 0;
            self.inside_window = false;
        } else {
            if line == 144 {
                state.swap_frames();
                state.vblank_irq = true;
            }
            let ghost s0 = state.stat.0;
            state.set_mode(1);
            let ghost s1 = state.stat.0;
            state.set_ly(line);
            proof {
                lemma_stat_bits(s0, 1, line == state.lyc);
                lemma_stat_bits(s1, 1, line == state.lyc);
            }
        }
    }

    /// One OAM scan step: entry `entry` joins the sprite buffer when it is on this line (x > 0
    /// and line + 16 within [y, y + height)) and the buffer holds fewer than 10.
    fn scan_entry(&mut self, state: &PpuState, entry: usize)
        requires
            old(self).core_wf(state),
            entry < 40,
        ensures
            final(self).core_wf(state),
            final(self).line == old(self).line && final(self).dot == old(self).dot,
            final(self).drawing == old(self).drawing,
            final(self).sprite_clocks == old(self).sprite_clocks,
            ({
                let (b, n) = scan_step(
                    old(self).sprite_buffer@,
                    old(self).sprite_buffer_len,
                    state.spec_oam(entry as int),
                    old(self).line,
                    state.spec_sprite_height(),
                );
                final(self)@ == (GenView { sprite_buffer: b, sprite_buffer_len: n, ..old(self)@ })
            }),
    {
        if self.sprite_buffer_len < MAX_SPRITES_PER_LINE {
            let e = state.oam(entry);
            let line = self.line as u16;
            if e.xpos > 0 && line + 16 >= e.ypos as u16 && line + 16 < e.ypos as u16
                + state.sprite_height() as u16 {
                self.sprite_buffer.set(self.sprite_buffer_len, e);
                self.sprite_buffer_len = self.sprite_buffer_len + 1;
            }
        }
    }

    /// Enters mode 3: a start-up fetch of 6 dots, empty FIFOs, background fetch from tile 0,
    /// SCX % 8 pixels to discard.
    fn start_drawing(&mut self, state: &mut PpuState)
        requires
            old(self).core_wf(old(state)),
            old(self).line < 144,
            old(self).dot == 80,
        ensures
            final(self).core_wf(final(state)),
            final(self).line == old(self).line && final(self).dot == old(self).dot,
            final(self)@ == spec_start_drawing(old(self)@, old(state)),
            final(self).drawing,
            final(self).startup == DRAW_STARTUP_DOTS,
            final(self).x == -((old(state).scx % 8) as int),
            final(self).sprite_clocks == 0,
            final(state).stat.0 & 0x03 == 3,
            final(state).stat.0 & 0x04 == old(state).stat.0 & 0x04,
            final(state).ly == old(state).ly,
            final(state).vblank_irq == old(state).vblank_irq,
            final(state).frame.pixels@ == old(state).frame.pixels@,
            final(state).back_frame.pixels@ == old(state).back_frame.pixels@,
            same_video_memory(final(state), old(state)),
            same_cpu_registers(final(state), old(state)),
    {
        let ghost s0 = state.stat.0;
        state.set_mode(3);
        proof {
            lemma_stat_bits(s0, 3, true);
        }
        self.bg_fifo = BgPixelFifo::new();
        self.bg_fifo.set_tile_map_offset(TileCounter::Bg { x_counter: 0 });
        self.sprite_fifo = SpritePixelFifo::new();
        self.x = -((state.scx % 8) as i16);
        self.cycles = 80;
        self.inside_window = false;
        self.drawing = true;
        self.sprite_clocks = 0;
        self.startup = DRAW_STARTUP_DOTS;
    }

    /// The driver is consistent with itself and with the PPU it drives: past the first dot of
    /// a line, LY is that line and STAT holds the mode of the phase reached.
    pub open spec fn wf(&self, state: &PpuState) -> bool {
        &&& self.core_wf(state)
        &&& (self.drawing ==> self.line < 144 && self.dot > 80 && -8 < self.x <= 160)
        &&& (self.dot > 0 ==> state.ly == self.line)
        &&& (self.dot > 0 ==> state.stat.0 & 0x03 == expected_mode(self.line, self.dot, self.drawing))
    }

    /// What one dot does to the driver (`g0` to `g1`) and to the PPU (`s0` to `s1`): the line
    /// start, the OAM scan step, the start and the steps of mode 3 exactly as
    /// `spec_start_line`, `scan_step`, `spec_start_drawing` and `spec_draw_dot` give them,
    /// then the move to the next dot; LY, the STAT flag, the VBlank line and the frames as stated.
    pub open spec fn resume_post(g0: GenView, s0: &PpuState, g1: GenView, s1: &PpuState) -> bool {
        &&& g1 == step_position(spec_dot_work(g0, s0))
        &&& s1.back_frame.pixels@ == if g0.line < 144 && g0.dot > 80 && g0.drawing {
            spec_draw_dot(g0, s0, s0.back_frame.pixels@).1
        } else if g0.dot == 0 && g0.line == 144 {
            s0.frame.pixels@
        } else {
            s0.back_frame.pixels@
        }
        &&& s1.frame.pixels@ == if g0.dot == 0 && g0.line == 144 {
            s0.back_frame.pixels@
        } else {
            s0.frame.pixels@
        }
        &&& s1.ly == if g0.dot == 0 {
            g0.line
        } else {
            s0.ly
        }
        &&& (g0.dot == 0 ==> (s1.stat.0 & 0x04 != 0) == (s1.ly == s1.lyc))
        &&& s1.vblank_irq == if g0.dot == 0 && g0.line == 144 {
            true
        } else if g0.dot == 0 && g0.line == 0 {
            false
        } else {
            s0.vblank_irq
        }
        &&& same_video_memory(s1, s0)
        &&& same_cpu_registers(s1, s0)
    }

    /// Runs one dot.
    pub fn resume(&mut self, state: &mut PpuState)
        requires
            old(self).wf(old(state)),
        ensures
            final(self).wf(final(state)),
            PpuGenerator::resume_post(old(self)@, old(state), final(self)@, final(state)),
            (final(self).line, final(self).dot) == next_position(old(self).line, old(self).dot),
    {
        let line = self.line;
        if self.dot == 0 {
            self.start_line(state);
        }
        if line < VISIBLE_LINES {
            if self.dot < OAM_SCAN_DOTS {
                if self.dot % 2 == 0 {
                    self.scan_entry(state, (self.dot / 2) as usize);
                }
            } else if self.dot == OAM_SCAN_DOTS {
                self.start_drawing(state);
                self.draw_dot(state);
            } else if self.drawing {
                self.draw_dot(state);
            }
        }
        proof {
            lemma_mode_bits(final(state).stat.0);
        }
        if self.dot + 1 >= DOTS_PER_LINE {
            self.dot = 0;
            self.line = if line + 1 >= LINES_PER_FRAME {
                0
            } else {
                line + 1
            };
            self.drawing = false;
            self.sprite_clocks = 0;
        } else {
            self.dot = self.dot + 1;
        }
    }

    /// Emits the pixel built from `bg_pix` and the front sprite pixel at column x (when x is
    /// on screen), starts the window when it is enabled, WY has been passed and x reaches
    /// WX - 7, and moves to the next column.
    fn finish_pixel(&mut self, state: &mut PpuState, bg_pix: Pixel)
        requires
            old(self).core_wf(old(state)),
            old(self).drawing,
            old(self).line < 144,
            -8 < old(self).x < 160,
            old(self).sprite_clocks == 0,
            bg_pix.wf(),
        ensures
            final(self).core_wf(final(state)),
            (final(self)@, final(state).back_frame.pixels@) == spec_finish(
                old(self)@,
                old(state),
                old(state).back_frame.pixels@,
                bg_pix,
            ),
            final(self).line == old(self).line && final(self).dot == old(self).dot,
            final(self).drawing,
            final(self).x == old(self).x + 1,
            final(self).sprite_clocks == old(self).sprite_clocks,
            final(state).stat == old(state).stat,
            final(state).ly == old(state).ly,
            final(state).stat_irq == old(state).stat_irq,
            final(state).vblank_irq == old(state).vblank_irq,
            final(state).frame.pixels@ == old(state).frame.pixels@,
            same_but_row(
                old(state).back_frame.pixels@,
                final(state).back_frame.pixels@,
                old(self).line as int,
            ),
            same_video_memory(final(state), old(state)),
            same_cpu_registers(final(state), old(state)),
    {
        let sprite_pix = self.sprite_fifo.pop_pixel();
        if self.x >= 0 {
            let x = self.x as usize;
            let y = self.line as usize;
            state.put_pixel(bg_pix, sprite_pix, x, y);
            assert forall|i: int|
                0 <= i < old(state).back_frame.pixels@.len() && i / 160 != y implies #[trigger] state.back_frame.pixels@[i]
                == old(state).back_frame.pixels@[i] by {
                assert(i != y * 160 + x);
            }
        }
        if state.lcdc.contains(WINDOW_ENABLE) && self.wy_passed && self.x >= state.wx as i16 - 7
            && !self.inside_window {
            self.bg_fifo.clear();
            assert(self.bg_fifo.pixels@ =~= Seq::<Pixel>::empty());
            self.bg_fifo.set_tile_map_offset(
                TileCounter::Window { x_counter: 0, window_line: self.window_lines },
            );
            self.inside_window = true;
        }
        self.x = self.x + 1;
        self.cycles = self.cycles.wrapping_add(1);
    }

    /// The first buffered sprite with x position at most x + 8, if any.
    fn find_sprite(&self) -> (r: Option<usize>)
        requires
            self.sprite_buffer@.len() == 10,
            -8 < self.x <= 160,
        ensures
            r matches Some(i) ==> i < 10 && first_sprite_from(self.sprite_buffer@, self.x, 0)
                == Some(i as int),
            r is None ==> first_sprite_from(self.sprite_buffer@, self.x, 0) is None,
    {
        let mut i: usize = 0;
        while i < 10
            invariant
                i <= 10,
                self.sprite_buffer@.len() == 10,
                -8 < self.x <= 160,
                first_sprite_from(self.sprite_buffer@, self.x, 0) == first_sprite_from(
                    self.sprite_buffer@,
                    self.x,
                    i as int,
                ),
            decreases 10 - i,
        {
            if self.sprite_buffer[i].xpos as i16 <= self.x + 8 {
                return Some(i);
            }
            i = i + 1;
        }
        None
    }

    /// One dot of mode 3. The start-up fetch runs first, showing nothing. A sprite fetch in
    /// progress takes its next step; after its sixth, the sprite's off-screen columns are
    /// dropped and the held BG pixel is emitted. Otherwise, once x reaches 160, the line enters HBlank; else the BG fetcher steps on even counts, a
    /// BG pixel is taken, and either a buffered sprite at x + 8 or before starts its fetch
    /// (pausing the BG fetcher) or the pixel is emitted.
    fn draw_dot(&mut self, state: &mut PpuState)
        requires
            old(self).core_wf(old(state)),
            old(self).drawing,
            old(self).line < 144,
            -8 < old(self).x <= 160,
            old(state).stat.0 & 0x03 == 3,
        ensures
            final(self).core_wf(final(state)),
            (final(self)@, final(state).back_frame.pixels@) == spec_draw_dot(
                old(self)@,
                old(state),
                old(state).back_frame.pixels@,
            ),
            final(self).line == old(self).line && final(self).dot == old(self).dot,
            final(self).drawing ==> -8 < final(self).x <= 160,
            final(state).stat.0 & 0x03 == if final(self).drawing {
                3u8
            } else {
                0u8
            },
            final(state).stat.0 & 0x04 == old(state).stat.0 & 0x04,
            final(state).ly == old(state).ly,
            final(state).vblank_irq == old(state).vblank_irq,
            final(state).frame.pixels@ == old(state).frame.pixels@,
            same_but_row(
                old(state).back_frame.pixels@,
                final(state).back_frame.pixels@,
                old(self).line as int,
            ),
            same_video_memory(final(state), old(state)),
            same_cpu_registers(final(state), old(state)),
    {
        let line = self.line;
        if self.startup > 0 {
            self.startup = self.startup - 1;
            return;
        }
        if self.sprite_clocks > 0 && self.sprite_clocks < SPRITE_FETCH_DOTS {
            self.sprite_fifo.clock(state, line);
            self.sprite_clocks = self.sprite_clocks + 1;
            return;
        }
        if self.sprite_clocks == SPRITE_FETCH_DOTS {
            // Drop the sprite's columns left of the screen
            if self.held_xpos < 8 {
                let mut k: u8 = self.held_xpos;
                let ghost g0 = self@;
                assert(drop_n(g0.spr.pixels, 0) =~= g0.spr.pixels);
                while k < 8
                    invariant
                        self.held_xpos <= k <= 8,
                        self@ == (GenView {
                            spr: SpriteFifoView {
                                pixels: drop_n(g0.spr.pixels, k - self.held_xpos),
                                ..g0.spr
                            },
                            ..g0
                        }),
                        g0 == old(self)@,
                        self.core_wf(state),
                        self.drawing,
                        self.sprite_clocks == 6,
                        self.x < 160,
                        self.line == line,
                        self.dot == old(self).dot,
                        -8 < self.x,
                    decreases 8 - k,
                {
                    let ghost before = self.sprite_fifo.pixels@;
                    self.sprite_fifo.pop_pixel();
                    proof {
                        let n = k - self.held_xpos;
                        if n < g0.spr.pixels.len() {
                            assert(drop_n(g0.spr.pixels, n + 1) =~= drop_n(
                                g0.spr.pixels,
                                n,
                            ).drop_first());
                        } else {
                            assert(drop_n(g0.spr.pixels, n + 1) =~= drop_n(g0.spr.pixels, n));
                        }
                    }
                    k = k + 1;
                }
            } else {
                assert(drop_n(self.sprite_fifo.pixels@, 0) =~= self.sprite_fifo.pixels@);
            }
            self.sprite_clocks = 0;
            let held = self.held_bg;
            self.finish_pixel(state, held);
            return;
        }
        if self.x >= 160 {
            if self.inside_window && self.window_lines < 144 {
                self.window_lines = self.window_lines + 1;
            }
            let ghost s0 = state.stat.0;
            state.set_mode(0);
            proof {
                lemma_stat_bits(s0, 0, true);
            }
            self.drawing = false;
            return;
        }
        if self.cycles % 2 == 0 {
            self.bg_fifo.clock(state, line);
        }
        match self.bg_fifo.pop_pixel() {
            None => {
                self.cycles = self.cycles.wrapping_add(1);
            },
            Some(bg_pix) => {
                match self.find_sprite() {
                    Some(i) => {
                        let sprite = self.sprite_buffer[i];
                        self.bg_fifo.reset_fetcher();
                        self.sprite_fifo.load_sprite(sprite);
                        self.held_xpos = sprite.xpos;
                        // Move the sprite off screen so that it is drawn once
                        self.sprite_buffer.set(i, OamEntry { xpos: 255, ..sprite });
                        self.held_bg = bg_pix;
                        self.sprite_fifo.clock(state, line);
                        self.sprite_clocks = 1;
                    },
                    None => {
                        self.finish_pixel(state, bg_pix);
                    },
                }
            },
        }
    }

    /// Runs four dots: one M-cycle. Each dot goes as `resume_post` states.
    pub fn advance_4_dots(&mut self, state: &mut PpuState)
        requires
            old(self).wf(old(state)),
        ensures
            final(self).wf(final(state)),
            (final(self).line, final(self).dot) == position_after(
                old(self).line,
                old(self).dot,
                4,
            ),
            exists|g1: GenView, g2: GenView, g3: GenView, s1: PpuState, s2: PpuState, s3: PpuState|
                {
                    &&& PpuGenerator::resume_post(old(self)@, old(state), g1, &s1)
                    &&& #[trigger] PpuGenerator::resume_post(g1, &s1, g2, &s2)
                    &&& #[trigger] PpuGenerator::resume_post(g2, &s2, g3, &s3)
                    &&& PpuGenerator::resume_post(g3, &s3, final(self)@, final(state))
                },
            same_video_memory(final(state), old(state)),
            same_cpu_registers(final(state), old(state)),
    {
        let ghost (l0, d0) = (self.line, self.dot);
        self.resume(state);
        let ghost g1 = self@;
        let ghost s1 = *state;
        let ghost (l1, d1) = (self.line, self.dot);
        self.resume(state);
        let ghost g2 = self@;
        let ghost s2 = *state;
        let ghost (l2, d2) = (self.line, self.dot);
        self.resume(state);
        let ghost g3 = self@;
        let ghost s3 = *state;
        let ghost (l3, d3) = (self.line, self.dot);
        self.resume(state);
        proof {
            assert(position_after(l3, d3, 1) == position_after(self.line, self.dot, 0));
            assert(position_after(l2, d2, 2) == position_after(l3, d3, 1));
            assert(position_after(l1, d1, 3) == position_after(l2, d2, 2));
            assert(position_after(l0, d0, 4) == position_after(l1, d1, 3));
            assert(PpuGenerator::resume_post(old(self)@, old(state), g1, &s1));
            assert(PpuGenerator::resume_post(g1, &s1, g2, &s2));
            assert(PpuGenerator::resume_post(g2, &s2, g3, &s3));
            assert(PpuGenerator::resume_post(g3, &s3, self@, state));
        }
    }
}

/// Mode 3 as one dot of the driver performs it: drawing starts on dot 80 of a visible line
/// with the 6-dot start-up and x at -(SCX % 8); while x is short of 160 it goes on; a dot whose
/// BG fetcher has a pixel ready and meets no sprite draws that pixel at column x, mixed with the
/// front sprite pixel through the palettes, and moves x on by one; once x reaches 160 with no
/// fetch pending, drawing ends and HBlank follows.
pub proof fn lemma_mode3_steps(g0: GenView, s0: &PpuState, g1: GenView, s1: &PpuState)
    requires
        PpuGenerator::resume_post(g0, s0, g1, s1),
        s0.wf(),
        g0.line < 144,
        g0.sprite_clocks <= 6,
    ensures
        g0.dot == 80 ==> g1.drawing && g1.startup == 5 && g1.x == -((s0.scx % 8) as int),
        g0.dot > 80 && g0.dot + 1 < 456 && g0.drawing && (g0.x < 160 || g0.startup > 0
            || g0.sprite_clocks > 0) ==> g1.drawing,
        g0.dot > 80 && g0.drawing && g0.startup == 0 && g0.sprite_clocks == 0 && g0.x >= 160
            ==> !g1.drawing,
        ({
            let bg1 = if g0.cycles % 2 == 0 {
                bg_clock_spec(g0.bg, s0, g0.line)
            } else {
                g0.bg
            };
            let spr_pix = if g0.spr.pixels.len() > 0 {
                g0.spr.pixels[0]
            } else {
                Pixel { color: 0, palette: 0, bg_priority: false }
            };
            g0.dot > 80 && g0.drawing && g0.startup == 0 && g0.sprite_clocks == 0 && 0 <= g0.x
                < 160 && bg1.pixels.len() > 0 && first_sprite_from(g0.sprite_buffer, g0.x, 0)
                is None ==> {
                &&& g0.line * 160 + g0.x < s1.back_frame.pixels@.len()
                &&& s1.back_frame.pixels@[g0.line * 160 + g0.x] == spec_color(
                    mixed_shade(s0.bgp, s0.obp0, s0.obp1, bg1.pixels[0], spr_pix),
                )
                &&& g1.x == g0.x + 1
            }
        }),
{
    assert(g0.line * 160 + 160 <= 144 * 160);
}

} // verus!
