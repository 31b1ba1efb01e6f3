use vstd::prelude::*;
use crate::bits::{bit_of, lemma_with_bit, pixel_index, tile_pixel, with_bit};
use crate::colors::{Palette, ZERO_SHADE, color_zero};
use crate::lcd::{LCD, Mode};
use crate::mmu::MMU;
use crate::oam::Sprite;
use crate::screen::{FRAME_BUFFER_SIZE, Screen, pixel_offset};
use crate::vram::{tile_map_offset, tile_offset};

verus! {

pub const SEARCH_OAM_LENGTH: usize = 80;
pub const READ_OAM_LENGTH: usize = 172;
pub const HBLANK_LENGTH: usize = 204;
pub const VBLANK_LENGTH: usize = 4560;
pub const LINE_LENGTH: usize = 456;
pub const FULL_FRAME: usize = (SEARCH_OAM_LENGTH + READ_OAM_LENGTH + HBLANK_LENGTH) * 144 + VBLANK_LENGTH;

/// What a PPU step reports: nothing, or a frame just completed.
#[derive(Debug, Clone, Copy, PartialEq, Eq, Structural)]
pub enum State {
    Default,
    Frame,
}

/// How long the PPU stays in each mode before it moves on.
pub open spec fn mode_limit(m: Mode) -> usize {
    match m {
        Mode::HBlank => HBLANK_LENGTH,
        Mode::VBlank => VBLANK_LENGTH,
        Mode::SearchOAM => SEARCH_OAM_LENGTH,
        Mode::ReadOAM => READ_OAM_LENGTH,
    }
}

/// The mode that follows `m` when it ends; `ly` is LY once the step has updated it.
pub open spec fn next_mode(m: Mode, ly: u8) -> Mode {
    match m {
        Mode::HBlank => if ly < 144 { Mode::SearchOAM } else { Mode::VBlank },
        Mode::VBlank => Mode::SearchOAM,
        Mode::SearchOAM => Mode::ReadOAM,
        Mode::ReadOAM => Mode::HBlank,
    }
}

/// LY lies in 144..=153 during V-Blank and in 0..=143 otherwise.
pub open spec fn ly_in_range(m: Mode, ly: u8) -> bool {
    if m == Mode::VBlank { 144 <= ly <= 153 } else { ly <= 143 }
}

/// The colour of background (or window) pixel (sx, sy) of tile map `map`: from the
/// tile's CGB palette when `color_mode`, else from BGP.
pub open spec fn map_color(m: MMU, color_mode: bool, map: bool, sx: u8, sy: u8) -> (u8, u8, u8) {
    let off = tile_map_offset(map, sx as int / 8, sy as int / 8);
    let idx = m.vram.bank_view(false)[off];
    let attrs = m.vram.bank_view(true)[off];
    let bank = attrs / 8 % 2 == 1;
    let base = tile_offset(bit_of(m.lcd.ff40_lcdc, 4), idx) + (sy as int % 8) * 2;
    let lo = m.vram.bank_view(bank)[base];
    let hi = m.vram.bank_view(bank)[base + 1];
    let ci = pixel_index(lo, hi, (7 - sx % 8) as u8);
    let pal = if color_mode { m.colors.cgb_spec(attrs % 8) } else { Palette::mono_spec(m.colors.ff47_bgp) };
    pal.color_spec(ci)
}

/// Whether the window shows on line `line`.
pub open spec fn window_on_line(m: MMU, line: u8) -> bool {
    bit_of(m.lcd.ff40_lcdc, 5) && !(line < m.lcd.ff4a_wy || m.lcd.ff4b_wx > 166 || m.lcd.ff4a_wy > 143)
}

/// The colour of background and window at (x, line), or `under` where neither is drawn.
pub open spec fn layer_color(m: MMU, color_mode: bool, line: u8, x: int, under: (u8, u8, u8)) -> (u8, u8, u8) {
    if window_on_line(m, line) && x + 7 >= m.lcd.ff4b_wx {
        map_color(m, false, bit_of(m.lcd.ff40_lcdc, 6), (x + 7 - m.lcd.ff4b_wx) as u8, (line - m.lcd.ff4a_wy) as u8)
    } else if bit_of(m.lcd.ff40_lcdc, 0) {
        map_color(m, color_mode, bit_of(m.lcd.ff40_lcdc, 3), ((x + m.lcd.ff43_scx) % 256) as u8, ((line + m.lcd.ff42_scy) % 256) as u8)
    } else {
        under
    }
}

/// Sprite height in lines: 16 with LCDC bit 2 set, else 8.
pub open spec fn sprite_height(m: MMU) -> int {
    if bit_of(m.lcd.ff40_lcdc, 2) { 16 } else { 8 }
}

/// Whether sprite `s` passes the culling rules for line `line`: Y in 1..=159, the line
/// within its height, X in 1..=167.
pub open spec fn sprite_on_line(s: Sprite, line: u8, h: int) -> bool {
    &&& !(s.y_pos == 0 || s.y_pos >= 160)
    &&& s.y_pos <= line + 16 < s.y_pos + h
    &&& !(s.x_pos == 0 || s.x_pos >= 168)
}

/// The tile and the row in it that sprite `s` shows on line `line`: Y flip applied, and
/// in 8x16 mode the lower half taken from the tile with its low bit set.
pub open spec fn sprite_row(s: Sprite, line: u8, h: int) -> (u8, int) {
    let sl = line + 16 - s.y_pos;
    let r = if bit_of(s.flags, 6) { h - 1 - sl } else { sl };
    if h == 16 && r > 7 { (s.tile_number | 0x01, r % 8) } else { (s.tile_number, r) }
}

/// The colour at screen (x, line) once sprite `s` is drawn over colour `c`: index 0 is
/// transparent; with flag bit 7 the sprite shows only over the lightest shade.
pub open spec fn sprite_over(m: MMU, s: Sprite, line: u8, x: int, c: (u8, u8, u8)) -> (u8, u8, u8) {
    let h = sprite_height(m);
    if !sprite_on_line(s, line, h) || !(s.x_pos - 8 <= x < s.x_pos) {
        c
    } else {
        let (tile, row) = sprite_row(s, line, h);
        let base = tile_offset(true, tile) + row * 2;
        let lo = m.vram.bank_view(false)[base];
        let hi = m.vram.bank_view(false)[base + 1];
        let k = x - (s.x_pos - 8);
        let ci = pixel_index(lo, hi, (if bit_of(s.flags, 5) { k } else { 7 - k }) as u8);
        let pal = if bit_of(s.flags, 4) {
            Palette::mono_spec(m.colors.ff49_obp1)
        } else {
            Palette::mono_spec(m.colors.ff48_obp0)
        };
        if ci == 0 {
            c
        } else if c == color_zero() || !bit_of(s.flags, 7) {
            pal.color_spec(ci)
        } else {
            c
        }
    }
}

/// The colour at (x, line) after the first `n` OAM entries are drawn, in order, over `under`.
pub open spec fn sprites_color(m: MMU, line: u8, x: int, under: (u8, u8, u8), n: nat) -> (u8, u8, u8)
                decreases n,
            {
    if n == 0 {
        under
    } else {
        sprite_over(m, m.oam.sprite_spec(n - 1), line, x, sprites_color(m, line, x, under, (n - 1) as nat))
    }
}

/// The colour at (x, line) once the whole line is drawn over `under`: background and
/// window, then the sprites if LCDC bit 1 is set.
pub open spec fn line_color(m: MMU, color_mode: bool, line: u8, x: int, under: (u8, u8, u8)) -> (u8, u8, u8) {
    let base = layer_color(m, color_mode, line, x, under);
    if bit_of(m.lcd.ff40_lcdc, 1) { sprites_color(m, line, x, base, 40) } else { base }
}

/// Bytes of the frame buffer outside row `y` are equal.
pub open spec fn same_outside_row(a: Seq<u8>, b: Seq<u8>, y: int) -> bool {
    a.len() == b.len() && forall|j: int|
        0 <= j < a.len() && !(pixel_offset(0, y) <= j < pixel_offset(0, y + 1)) ==> a[j] == b[j]
}

/// How many line boundaries (multiples of 456) lie strictly below a V-Blank counter of
/// `x`: like a mode, a line ends on the first step past its length.
pub open spec fn lines_passed(x: int) -> int {
    if x > 0 { (x - 1) / (LINE_LENGTH as int) } else { 0 }
}

/// LY after a step that took the mode length from `old_len` to `len`: one more when
/// H-Blank ends; in V-Blank one more each time the counter passes a multiple of 456 (up to 153),
/// and 0 when V-Blank ends; unchanged otherwise.
pub open spec fn ly_after(m: Mode, old_len: int, len: int, ly: u8) -> u8 {
    match m {
        Mode::HBlank => if len > HBLANK_LENGTH { ((ly + 1) % 256) as u8 } else { ly },
        Mode::VBlank => if len > VBLANK_LENGTH {
            0
        } else if lines_passed(len) > lines_passed(old_len) && ly < 153 {
            (ly + 1) as u8
        } else {
            ly
        },
        _ => ly,
    }
}

/// IF after a step: bit 0 requested when V-Blank starts, bit 1 when LY == LYC with
/// STAT bit 6 set.
pub open spec fn if_after(iflag: u8, vblank_starts: bool, lyc_request: bool) -> u8 {
    let a = if vblank_starts { with_bit(iflag, 0, true) } else { iflag };
    if lyc_request { with_bit(a, 1, true) } else { a }
}

/// What a PPU step of `ticks` T-cycles does, from (g, m) to (g2, m2), reporting `s`.
pub open spec fn gpu_tick_post(g: GPU, m: MMU, ticks: u8, g2: GPU, m2: MMU, s: State) -> bool {
    &&& g2.color_mode == g.color_mode
    &&& !bit_of(m.lcd.ff40_lcdc, 7) ==> {
            &&& s == if g.disabled_length >= FULL_FRAME { State::Frame } else { State::Default }
            &&& g2.disabled_length == if g.disabled_length >= FULL_FRAME {
                0
            } else {
                g.disabled_length + ticks
            }
            &&& g2.current_mode == g.current_mode
            &&& g2.current_mode_length == g.current_mode_length
            &&& m2 == m
        }
    &&& bit_of(m.lcd.ff40_lcdc, 7) ==> {
            let len = g.current_mode_length + ticks;
            &&& g2.disabled_length == g.disabled_length
            &&& len <= mode_limit(g.current_mode) ==> {
                &&& g2.current_mode == g.current_mode
                &&& g2.current_mode_length == len
            }
            &&& len > mode_limit(g.current_mode) ==> {
                &&& g2.current_mode == next_mode(g.current_mode, m2.lcd.ff44_ly)
                &&& g2.current_mode_length as int == len - mode_limit(g.current_mode)
                &&& m2.lcd.ff41_stat % 4 == g2.current_mode.code()
            }
            &&& (s == State::Frame) == (g.current_mode == Mode::HBlank && len > HBLANK_LENGTH
                && g2.current_mode == Mode::VBlank)
            &&& ly_in_range(g.current_mode, m.lcd.ff44_ly) ==> ly_in_range(
                g2.current_mode,
                m2.lcd.ff44_ly,
            )
            &&& bit_of(m2.lcd.ff41_stat, 2) == (m2.lcd.ff44_ly == m2.lcd.ff45_lyc)
            &&& m2.lcd.ff44_ly == ly_after(
                g.current_mode,
                g.current_mode_length as int,
                len,
                m.lcd.ff44_ly,
            )
            &&& m2.interrupt.ff0f_if == if_after(
                m.interrupt.ff0f_if,
                g.current_mode == Mode::HBlank && len > HBLANK_LENGTH
                    && g2.current_mode == Mode::VBlank,
                m2.lcd.ff44_ly == m2.lcd.ff45_lyc && bit_of(m2.lcd.ff41_stat, 6),
            )
            &&& m2.lcd == (LCD {
                ff44_ly: m2.lcd.ff44_ly,
                ff41_stat: with_bit(
                    if len > mode_limit(g.current_mode) {
                        (m.lcd.ff41_stat / 4 * 4 + g2.current_mode.code()) as u8
                    } else {
                        m.lcd.ff41_stat
                    },
                    2,
                    m2.lcd.ff44_ly == m.lcd.ff45_lyc,
                ),
                ..m.lcd
            })
            &&& m2 == (MMU { lcd: m2.lcd, interrupt: m2.interrupt, ..m })
            &&& m2.interrupt.ffff_ie == m.interrupt.ffff_ie
            &&& g.current_mode == Mode::ReadOAM && len > READ_OAM_LENGTH
                && m.lcd.ff44_ly < 144 ==> forall|x: int|
                0 <= x < 160 ==> #[trigger] g2.screen.pixel(x, m.lcd.ff44_ly as int)
                    == line_color(
                    m,
                    g.color_mode,
                    m.lcd.ff44_ly,
                    x,
                    g.screen.pixel(x, m.lcd.ff44_ly as int),
                )
            &&& !(g.current_mode == Mode::ReadOAM && len > READ_OAM_LENGTH
                && m.lcd.ff44_ly < 144) ==> g2.screen == g.screen
        }
}

/// The pixel processing unit.
pub struct GPU {
    pub current_mode: Mode,
    pub current_mode_length: usize,
    pub disabled_length: usize,
    pub screen: Screen,
    pub color_mode: bool,
}

impl GPU {
    pub open spec fn wf(&self) -> bool {
        &&& self.screen.wf()
        &&& self.current_mode_length <= mode_limit(self.current_mode) + SEARCH_OAM_LENGTH
        &&& self.disabled_length < FULL_FRAME + 256
    }

    pub fn new(color: bool) -> (r: GPU)
        ensures
            r.wf(),
            r.current_mode == Mode::HBlank,
            r.current_mode_length == 0,
            r.disabled_length == 0,
            r.color_mode == color,
            forall|i: int| 0 <= i < FRAME_BUFFER_SIZE ==> r.screen.frame_buffer@[i] == 255,
    {
        GPU {
            current_mode: Mode::HBlank,
            current_mode_length: 0,
            disabled_length: 0,
            screen: Screen::new(),
            color_mode: color,
        }
    }

    /// Hands the last frame to the caller, taking the caller's buffer in exchange.
    pub fn swap_screen(&mut self, screen: &mut Screen)
        ensures
            final(self).screen == *old(screen),
            *final(screen) == old(self).screen,
            final(self).current_mode == old(self).current_mode,
            final(self).current_mode_length == old(self).current_mode_length,
            final(self).disabled_length == old(self).disabled_length,
            final(self).color_mode == old(self).color_mode,
    {
        core::mem::swap(&mut self.screen, screen);
    }

    /// Advances the PPU by one CPU step of `ticks` T-cycles (at most 80, the shortest
    /// mode, so that a step ends at most one mode).
    pub fn tick(&mut self, mmu: &mut MMU, ticks: u8) -> (s: State)
        requires
            old(self).wf(),
            old(mmu).wf(),
            ticks <= SEARCH_OAM_LENGTH,
        ensures
            final(self).wf(),
            final(mmu).wf(),
            gpu_tick_post(*old(self), *old(mmu), ticks, *final(self), *final(mmu), s),
    {
        if !mmu.lcd.display_enable() {
            if self.disabled_length >= FULL_FRAME {
                self.disabled_length = 0;
                return State::Frame;
            }
            self.disabled_length = self.disabled_length + ticks as usize;
            return State::Default;
        }
        let old_length = self.current_mode_length;
        self.current_mode_length = self.current_mode_length + ticks as usize;
        let state = match self.current_mode {
            Mode::HBlank => self.do_hblank(mmu),
            Mode::VBlank => {
                self.do_vblank(mmu, old_length);
                State::Default
            },
            Mode::SearchOAM => {
                self.do_search_oam(mmu);
                State::Default
            },
            Mode::ReadOAM => {
                self.do_read_oam(mmu);
                State::Default
            },
        };
        let ghost mid = *mmu;
        if mmu.lcd.ff44_ly == mmu.lcd.ff45_lyc {
            mmu.lcd.set_coincidence_flag_interrupt(true);
            if mmu.lcd.lyc_ly_coincidence_interrupt() {
                mmu.interrupt.set_lcd_stat_interrupt_request(true);
            }
        } else {
            mmu.lcd.set_coincidence_flag_interrupt(false);
        }
        proof {
            let eq = mid.lcd.ff44_ly == mid.lcd.ff45_lyc;
            lemma_with_bit(mid.lcd.ff41_stat, 2, eq);
            assert(mmu.lcd.ff41_stat % 4 == mid.lcd.ff41_stat % 4) by {
                assert(mmu.lcd.ff41_stat == with_bit(mid.lcd.ff41_stat, 2, eq));
                let s0 = mid.lcd.ff41_stat;
                assert(with_bit(s0, 2, eq) % 4 == s0 % 4) by (bit_vector);
            }
        }
        state
    }

    fn switch_mode(&mut self, mmu: &mut MMU, mode: Mode, carry: usize)
        requires
            old(mmu).wf(),
        ensures
            final(mmu).wf(),
            *final(self) == (GPU { current_mode: mode, current_mode_length: carry, ..*old(self) }),
            final(mmu).lcd == (LCD {
                ff41_stat: (old(mmu).lcd.ff41_stat / 4 * 4 + mode.code()) as u8,
                ..old(mmu).lcd
            }),
            final(mmu).interrupt.ff0f_if == if mode == Mode::VBlank {
                with_bit(old(mmu).interrupt.ff0f_if, 0, true)
            } else {
                old(mmu).interrupt.ff0f_if
            },
            *final(mmu) == (MMU { lcd: final(mmu).lcd, interrupt: final(mmu).interrupt, ..*old(mmu) }),
            final(mmu).interrupt.ffff_ie == old(mmu).interrupt.ffff_ie,
    {
        if mode == Mode::VBlank {
            mmu.interrupt.set_vblank_interrupt_request(true);
        }
        mmu.lcd.set_mode_flag(mode);
        self.current_mode_length = carry;
        self.current_mode = mode;
    }

    /// End of H-Blank: LY moves on; at line 144 V-Blank starts and a frame is done.
    fn do_hblank(&mut self, mmu: &mut MMU) -> (s: State)
        requires
            old(self).screen.wf(),
            old(mmu).wf(),
            old(self).current_mode == Mode::HBlank,
        ensures
            final(mmu).lcd == (LCD {
                ff44_ly: final(mmu).lcd.ff44_ly,
                ff41_stat: final(mmu).lcd.ff41_stat,
                ..old(mmu).lcd
            }),
            old(self).current_mode_length > HBLANK_LENGTH ==> final(mmu).lcd.ff41_stat == (old(mmu).lcd.ff41_stat / 4
                * 4 + final(self).current_mode.code()) as u8,
            old(self).current_mode_length <= HBLANK_LENGTH ==> final(mmu).lcd.ff41_stat == old(mmu).lcd.ff41_stat,
            final(mmu).wf(),
            *final(mmu) == (MMU { lcd: final(mmu).lcd, interrupt: final(mmu).interrupt, ..*old(mmu) }),
            final(mmu).interrupt.ffff_ie == old(mmu).interrupt.ffff_ie,
            final(mmu).interrupt.ff0f_if == if old(self).current_mode_length > HBLANK_LENGTH
                && final(self).current_mode == Mode::VBlank {
                with_bit(old(mmu).interrupt.ff0f_if, 0, true)
            } else {
                old(mmu).interrupt.ff0f_if
            },
            final(self).screen == old(self).screen,
            final(self).disabled_length == old(self).disabled_length,
            final(self).color_mode == old(self).color_mode,
            final(mmu).lcd.ff45_lyc == old(mmu).lcd.ff45_lyc,
            old(self).current_mode_length <= HBLANK_LENGTH ==> {
                &&& *final(self) == *old(self)
                &&& *final(mmu) == *old(mmu)
                &&& s == State::Default
            },
            old(self).current_mode_length > HBLANK_LENGTH ==> {
                &&& final(mmu).lcd.ff44_ly == (old(mmu).lcd.ff44_ly as int + 1) % 256
                &&& final(self).current_mode == next_mode(Mode::HBlank, final(mmu).lcd.ff44_ly)
                &&& final(self).current_mode_length == old(self).current_mode_length - HBLANK_LENGTH
                &&& final(mmu).lcd.ff41_stat % 4 == final(self).current_mode.code()
                &&& s == if final(self).current_mode == Mode::VBlank { State::Frame } else { State::Default }
            },
    {
        if self.current_mode_length <= HBLANK_LENGTH {
            return State::Default;
        }
        mmu.lcd.ff44_ly = ((mmu.lcd.ff44_ly as u16 + 1) % 256) as u8;
        if mmu.lcd.ff44_ly < 144 {
            self.switch_mode(mmu, Mode::SearchOAM, self.current_mode_length - HBLANK_LENGTH);
            State::Default
        } else {
            self.switch_mode(mmu, Mode::VBlank, self.current_mode_length - HBLANK_LENGTH);
            State::Frame
        }
    }

    /// V-Blank: LY moves on every 456 T-cycles up to 153; after 4560 LY returns to 0
    /// and OAM search starts.
    fn do_vblank(&mut self, mmu: &mut MMU, old_length: usize)
        requires
            old(self).screen.wf(),
            old(mmu).wf(),
            old(self).current_mode == Mode::VBlank,
            old_length <= old(self).current_mode_length,
        ensures
            final(mmu).lcd == (LCD {
                ff44_ly: final(mmu).lcd.ff44_ly,
                ff41_stat: final(mmu).lcd.ff41_stat,
                ..old(mmu).lcd
            }),
            old(self).current_mode_length > VBLANK_LENGTH ==> final(mmu).lcd.ff41_stat == (old(mmu).lcd.ff41_stat / 4
                * 4 + 2) as u8,
            old(self).current_mode_length <= VBLANK_LENGTH ==> final(mmu).lcd.ff41_stat == old(mmu).lcd.ff41_stat,
            final(mmu).wf(),
            *final(mmu) == (MMU { lcd: final(mmu).lcd, interrupt: final(mmu).interrupt, ..*old(mmu) }),
            final(mmu).interrupt.ffff_ie == old(mmu).interrupt.ffff_ie,
            final(mmu).interrupt.ff0f_if == old(mmu).interrupt.ff0f_if,
            final(self).screen == old(self).screen,
            final(self).disabled_length == old(self).disabled_length,
            final(self).color_mode == old(self).color_mode,
            final(mmu).lcd.ff45_lyc == old(mmu).lcd.ff45_lyc,
            old(self).current_mode_length <= VBLANK_LENGTH ==> {
                &&& *final(self) == *old(self)
                &&& final(mmu).lcd.ff41_stat == old(mmu).lcd.ff41_stat
                &&& final(mmu).lcd.ff44_ly == if lines_passed(old(self).current_mode_length as int)
                    > lines_passed(old_length as int) && old(mmu).lcd.ff44_ly < 153 {
                    (old(mmu).lcd.ff44_ly + 1) as u8
                } else {
                    old(mmu).lcd.ff44_ly
                }
            },
            old(self).current_mode_length > VBLANK_LENGTH ==> {
                &&& final(mmu).lcd.ff44_ly == 0
                &&& final(self).current_mode == Mode::SearchOAM
                &&& final(self).current_mode_length == old(self).current_mode_length - VBLANK_LENGTH
                &&& final(mmu).lcd.ff41_stat % 4 == 2
            },
    {
        if self.current_mode_length <= VBLANK_LENGTH {
            let passed_now: usize = if self.current_mode_length > 0 {
                (self.current_mode_length - 1) / LINE_LENGTH
            } else {
                0
            };
            let passed_before: usize = if old_length > 0 { (old_length - 1) / LINE_LENGTH } else { 0 };
            if passed_now > passed_before && mmu.lcd.ff44_ly < 153 {
                mmu.lcd.ff44_ly = mmu.lcd.ff44_ly + 1;
            }
        } else {
            mmu.lcd.ff44_ly = 0;
            self.switch_mode(mmu, Mode::SearchOAM, self.current_mode_length - VBLANK_LENGTH);
        }
    }

    fn do_search_oam(&mut self, mmu: &mut MMU)
        requires
            old(mmu).wf(),
            old(self).current_mode == Mode::SearchOAM,
        ensures
            final(mmu).lcd == (LCD {
                ff44_ly: final(mmu).lcd.ff44_ly,
                ff41_stat: final(mmu).lcd.ff41_stat,
                ..old(mmu).lcd
            }),
            old(self).current_mode_length > SEARCH_OAM_LENGTH ==> final(mmu).lcd.ff41_stat == (old(mmu).lcd.ff41_stat / 4
                * 4 + 3) as u8,
            old(self).current_mode_length <= SEARCH_OAM_LENGTH ==> final(mmu).lcd.ff41_stat == old(mmu).lcd.ff41_stat,
            final(mmu).wf(),
            *final(mmu) == (MMU { lcd: final(mmu).lcd, interrupt: final(mmu).interrupt, ..*old(mmu) }),
            final(mmu).interrupt.ffff_ie == old(mmu).interrupt.ffff_ie,
            final(mmu).interrupt.ff0f_if == old(mmu).interrupt.ff0f_if,
            final(self).screen == old(self).screen,
            final(self).disabled_length == old(self).disabled_length,
            final(self).color_mode == old(self).color_mode,
            final(mmu).lcd.ff44_ly == old(mmu).lcd.ff44_ly,
            final(mmu).lcd.ff45_lyc == old(mmu).lcd.ff45_lyc,
            old(self).current_mode_length <= SEARCH_OAM_LENGTH ==> *final(self) == *old(self)
                && *final(mmu) == *old(mmu),
                old(self).current_mode_length > SEARCH_OAM_LENGTH ==> {
                &&& final(self).current_mode == Mode::ReadOAM
                &&& final(self).current_mode_length == old(self).current_mode_length - SEARCH_OAM_LENGTH
                &&& final(mmu).lcd.ff41_stat % 4 == 3
            },
    {
        if self.current_mode_length > SEARCH_OAM_LENGTH {
            self.switch_mode(mmu, Mode::ReadOAM, self.current_mode_length - SEARCH_OAM_LENGTH);
        }
    }

    /// End of pixel transfer: the line is drawn and H-Blank starts.
    fn do_read_oam(&mut self, mmu: &mut MMU)
        requires
            old(self).screen.wf(),
            old(mmu).wf(),
            old(self).current_mode == Mode::ReadOAM,
        ensures
            final(mmu).lcd == (LCD {
                ff44_ly: final(mmu).lcd.ff44_ly,
                ff41_stat: final(mmu).lcd.ff41_stat,
                ..old(mmu).lcd
            }),
            old(self).current_mode_length > READ_OAM_LENGTH ==> final(mmu).lcd.ff41_stat == (old(mmu).lcd.ff41_stat / 4
                * 4 + 0) as u8,
            old(self).current_mode_length <= READ_OAM_LENGTH ==> final(mmu).lcd.ff41_stat == old(mmu).lcd.ff41_stat,
            final(mmu).wf(),
            *final(mmu) == (MMU { lcd: final(mmu).lcd, interrupt: final(mmu).interrupt, ..*old(mmu) }),
            final(mmu).interrupt.ffff_ie == old(mmu).interrupt.ffff_ie,
            final(mmu).interrupt.ff0f_if == old(mmu).interrupt.ff0f_if,
            final(self).screen.wf(),
            final(self).disabled_length == old(self).disabled_length,
            final(self).color_mode == old(self).color_mode,
            final(mmu).lcd.ff44_ly == old(mmu).lcd.ff44_ly,
            final(mmu).lcd.ff45_lyc == old(mmu).lcd.ff45_lyc,
            old(self).current_mode_length <= READ_OAM_LENGTH ==> *final(self) == *old(self)
                && *final(mmu) == *old(mmu),
                old(self).current_mode_length > READ_OAM_LENGTH ==> {
                &&& old(mmu).lcd.ff44_ly >= 144 ==> final(self).screen == old(self).screen
                &&& old(mmu).lcd.ff44_ly < 144 ==> same_outside_row(
                    old(self).screen.frame_buffer@,
                    final(self).screen.frame_buffer@,
                    old(mmu).lcd.ff44_ly as int,
                )
                &&& old(mmu).lcd.ff44_ly < 144 ==> forall|x: int|
                    0 <= x < 160 ==> #[trigger] final(self).screen.pixel(x, old(mmu).lcd.ff44_ly as int)
                        == line_color(
                        *old(mmu),
                        old(self).color_mode,
                        old(mmu).lcd.ff44_ly,
                        x,
                        old(self).screen.pixel(x, old(mmu).lcd.ff44_ly as int),
                    )
                &&& final(self).current_mode == Mode::HBlank
                &&& final(self).current_mode_length == old(self).current_mode_length - READ_OAM_LENGTH
                &&& final(mmu).lcd.ff41_stat % 4 == 0
            },
    {
        if self.current_mode_length > READ_OAM_LENGTH {
            self.draw_line(mmu);
            self.switch_mode(mmu, Mode::HBlank, self.current_mode_length - READ_OAM_LENGTH);
        }
    }

    /// Draws line LY: background, then window, then sprites, each if LCDC enables it.
    fn draw_line(&mut self, mmu: &MMU)
        requires
            old(self).screen.wf(),
            mmu.wf(),
        ensures
            final(self).screen.wf(),
            *final(self) == (GPU { screen: final(self).screen, ..*old(self) }),
            mmu.lcd.ff44_ly >= 144 ==> final(self).screen == old(self).screen,
            mmu.lcd.ff44_ly < 144 ==> same_outside_row(
                old(self).screen.frame_buffer@,
                final(self).screen.frame_buffer@,
                mmu.lcd.ff44_ly as int,
            ),
            mmu.lcd.ff44_ly < 144 ==> forall|x: int|
                0 <= x < 160 ==> #[trigger] final(self).screen.pixel(x, mmu.lcd.ff44_ly as int)
                    == line_color(
                    *mmu,
                    old(self).color_mode,
                    mmu.lcd.ff44_ly,
                    x,
                    old(self).screen.pixel(x, mmu.lcd.ff44_ly as int),
                ),
    {
        let line = mmu.lcd.ff44_ly;
        if line >= 144 {
            return;
        }
        let ghost s0 = self.screen;
        if mmu.lcd.bg_enable() {
            self.draw_bg_line(mmu, line);
        }
        let ghost s1 = self.screen;
        if mmu.lcd.window_enable() {
            self.draw_window_line(mmu, line);
        }
        let ghost s2 = self.screen;
        proof {
            assert forall|x: int| 0 <= x < 160 implies #[trigger] s2.pixel(x, line as int) == layer_color(
                *mmu,
                self.color_mode,
                line,
                x,
                s0.pixel(x, line as int),
            ) by {
                if !window_on_line(*mmu, line) {
                    if bit_of(mmu.lcd.ff40_lcdc, 5) {
                        assert(s2 == s1);
                    }
                    assert(s2.pixel(x, line as int) == s1.pixel(x, line as int));
                } else if !(x + 7 >= mmu.lcd.ff4b_wx) {
                    assert(s2.pixel(x, line as int) == s1.pixel(x, line as int));
                }
            }
        }
        if mmu.lcd.sprite_enable() {
            self.draw_sprite_line(mmu, line);
        }
        assert forall|x: int| 0 <= x < 160 implies #[trigger] self.screen.pixel(x, line as int) == line_color(
            *mmu,
            self.color_mode,
            line,
            x,
            s0.pixel(x, line as int),
        ) by {
            if !bit_of(mmu.lcd.ff40_lcdc, 1) {
                assert(self.screen == s2);
            }
        }
    }

    /// The colour of pixel (sx, sy) of tile map `map`.
    fn map_pixel(&self, mmu: &MMU, map: bool, sx: u8, sy: u8, cgb: bool) -> (c: (u8, u8, u8))
        requires
            mmu.wf(),
        ensures
            c == map_color(*mmu, cgb, map, sx, sy),
    {
        let cell = mmu.vram.get_tilemap_cell(map, sx / 8, sy / 8);
        let (lo, hi) = mmu.vram.get_tile_data(mmu.lcd.tile_data_select(), cell.bank(), cell.idx(), sy % 8);
        let ci = tile_pixel(lo, hi, 7 - sx % 8);
        let palette = if cgb {
            mmu.colors.cgb_bgp_palette(cell.cgb_palette_number())
        } else {
            mmu.colors.bgp_palette()
        };
        palette.color(ci)
    }

    /// Paints row `line` from the background map, scrolled by SCX and SCY.
    fn draw_bg_line(&mut self, mmu: &MMU, line: u8)
        requires
            old(self).screen.wf(),
            mmu.wf(),
            line < 144,
        ensures
            final(self).screen.wf(),
            *final(self) == (GPU { screen: final(self).screen, ..*old(self) }),
            same_outside_row(old(self).screen.frame_buffer@, final(self).screen.frame_buffer@, line as int),
            forall|x: int|
                0 <= x < 160 ==> #[trigger] final(self).screen.pixel(x, line as int) == map_color(
                    *mmu,
                    old(self).color_mode,
                    bit_of(mmu.lcd.ff40_lcdc, 3),
                    ((x + mmu.lcd.ff43_scx) % 256) as u8,
                    ((line + mmu.lcd.ff42_scy) % 256) as u8,
                ),
    {
        let map = mmu.lcd.bg_tile_map();
        let sy: u8 = ((line as u16 + mmu.lcd.ff42_scy as u16) % 256) as u8;
        let scx = mmu.lcd.ff43_scx;
        let mut x: u8 = 0;
        while x < 160
            invariant
                x <= 160,
                line < 144,
                mmu.wf(),
                self.screen.wf(),
                map == bit_of(mmu.lcd.ff40_lcdc, 3),
                sy == ((line + mmu.lcd.ff42_scy) % 256) as u8,
                scx == mmu.lcd.ff43_scx,
                *self == (GPU { screen: self.screen, ..*old(self) }),
                same_outside_row(old(self).screen.frame_buffer@, self.screen.frame_buffer@, line as int),
                forall|k: int|
                    0 <= k < x ==> #[trigger] self.screen.pixel(k, line as int) == map_color(
                        *mmu,
                        old(self).color_mode,
                        map,
                        ((k + scx) % 256) as u8,
                        sy,
                    ),
            decreases 160 - x,
        {
            let sx: u8 = ((x as u16 + scx as u16) % 256) as u8;
            let c = self.map_pixel(mmu, map, sx, sy, self.color_mode);
            let ghost before = self.screen;
            self.screen.draw_at(x, line, c.0, c.1, c.2);
            assert forall|k: int| 0 <= k < x + 1 implies #[trigger] self.screen.pixel(k, line as int)
                == map_color(*mmu, old(self).color_mode, map, ((k + scx) % 256) as u8, sy) by {
                if k < x {
                    assert(before.pixel(k, line as int) == self.screen.pixel(k, line as int));
                }
            }
            x = x + 1;
        }
    }

    /// Paints the window part of row `line`: screen column x shows window pixel
    /// (x + 7 - WX, LY - WY) of the window map, for x + 7 >= WX, in the BGP palette
    /// whatever the colour mode.
    fn draw_window_line(&mut self, mmu: &MMU, line: u8)
        requires
            old(self).screen.wf(),
            mmu.wf(),
            line < 144,
        ensures
            final(self).screen.wf(),
            *final(self) == (GPU { screen: final(self).screen, ..*old(self) }),
            same_outside_row(old(self).screen.frame_buffer@, final(self).screen.frame_buffer@, line as int),
            line < mmu.lcd.ff4a_wy || mmu.lcd.ff4b_wx > 166 || mmu.lcd.ff4a_wy > 143
                ==> final(self).screen == old(self).screen,
            forall|x: int|
                0 <= x < 160 && !(line < mmu.lcd.ff4a_wy || mmu.lcd.ff4b_wx > 166 || mmu.lcd.ff4a_wy > 143)
                    ==> #[trigger] final(self).screen.pixel(x, line as int) == if x + 7 >= mmu.lcd.ff4b_wx {
                    map_color(
                        *mmu,
                        false,
                        bit_of(mmu.lcd.ff40_lcdc, 6),
                        (x + 7 - mmu.lcd.ff4b_wx) as u8,
                        (line - mmu.lcd.ff4a_wy) as u8,
                    )
                } else {
                    old(self).screen.pixel(x, line as int)
                },
    {
        let wy = mmu.lcd.ff4a_wy;
        let wx = mmu.lcd.ff4b_wx;
        if line < wy || wx > 166 || wy > 143 {
            return;
        }
        let map = mmu.lcd.window_tile_map();
        let sy: u8 = line - wy;
        let mut x: u8 = 0;
        while x < 160
            invariant
                x <= 160,
                line < 144,
                wy <= line,
                wx <= 166,
                mmu.wf(),
                self.screen.wf(),
                map == bit_of(mmu.lcd.ff40_lcdc, 6),
                sy == line - mmu.lcd.ff4a_wy,
                wy == mmu.lcd.ff4a_wy,
                wx == mmu.lcd.ff4b_wx,
                *self == (GPU { screen: self.screen, ..*old(self) }),
                same_outside_row(old(self).screen.frame_buffer@, self.screen.frame_buffer@, line as int),
                forall|k: int|
                    x <= k < 160 ==> #[trigger] self.screen.pixel(k, line as int) == old(self).screen.pixel(
                        k,
                        line as int,
                    ),
                forall|k: int|
                    0 <= k < x ==> #[trigger] self.screen.pixel(k, line as int) == if k + 7 >= wx {
                        map_color(*mmu, false, map, (k + 7 - wx) as u8, sy)
                    } else {
                        old(self).screen.pixel(k, line as int)
                    },
            decreases 160 - x,
        {
            let ghost before = self.screen;
            if x as u16 + 7 >= wx as u16 {
                let sx: u8 = (x as u16 + 7 - wx as u16) as u8;
                let c = self.map_pixel(mmu, map, sx, sy, false);
                self.screen.draw_at(x, line, c.0, c.1, c.2);
            }
            assert forall|k: int| 0 <= k < x + 1 implies #[trigger] self.screen.pixel(k, line as int)
                == if k + 7 >= wx {
                map_color(*mmu, false, map, (k + 7 - wx) as u8, sy)
            } else {
                old(self).screen.pixel(k, line as int)
            } by {
                if k < x {
                    assert(before.pixel(k, line as int) == self.screen.pixel(k, line as int));
                } else {
                    assert(before.pixel(k, line as int) == old(self).screen.pixel(k, line as int));
                }
            }
            assert forall|k: int| x + 1 <= k < 160 implies #[trigger] self.screen.pixel(k, line as int)
                == old(self).screen.pixel(k, line as int) by {
                assert(before.pixel(k, line as int) == old(self).screen.pixel(k, line as int));
            }
            x = x + 1;
        }
    }

    /// Paints the sprites that cross row `line`, in OAM order. Colour index 0 is
    /// transparent; a sprite with the priority flag shows only over background colour 0.
    fn draw_sprite_line(&mut self, mmu: &MMU, line: u8)
        requires
            old(self).screen.wf(),
            mmu.wf(),
            line < 144,
        ensures
            final(self).screen.wf(),
            *final(self) == (GPU { screen: final(self).screen, ..*old(self) }),
            same_outside_row(old(self).screen.frame_buffer@, final(self).screen.frame_buffer@, line as int),
            forall|x: int|
                0 <= x < 160 ==> #[trigger] final(self).screen.pixel(x, line as int) == sprites_color(
                    *mmu,
                    line,
                    x,
                    old(self).screen.pixel(x, line as int),
                    40,
                ),
    {
        let mode_8x16 = mmu.lcd.sprite_size();
        let max_height: u8 = if mode_8x16 { 16 } else { 8 };
        let mut i: usize = 0;
        while i < 40
            invariant
                i <= 40,
                line < 144,
                mmu.wf(),
                self.screen.wf(),
                max_height as int == sprite_height(*mmu),
                mode_8x16 == (max_height == 16),
                *self == (GPU { screen: self.screen, ..*old(self) }),
                same_outside_row(old(self).screen.frame_buffer@, self.screen.frame_buffer@, line as int),
                forall|x: int|
                    0 <= x < 160 ==> #[trigger] self.screen.pixel(x, line as int) == sprites_color(
                        *mmu,
                        line,
                        x,
                        old(self).screen.pixel(x, line as int),
                        i as nat,
                    ),
            decreases 40 - i,
        {
            let sprite = mmu.oam.sprite(i);
            let ghost before = self.screen;
            let ghost n = i;
            i = i + 1;
            assert forall|x: int| 0 <= x < 160 implies sprites_color(
                *mmu,
                line,
                x,
                old(self).screen.pixel(x, line as int),
                i as nat,
            ) == sprite_over(*mmu, sprite, line, x, before.pixel(x, line as int)) by {}
            if sprite.y_pos == 0 || sprite.y_pos >= 160 {
                continue;
            }
            // Rows line - y_pos + 16 in 0..max_height belong to the sprite.
            if sprite.y_pos > line + 16 || sprite.y_pos as u16 + max_height as u16 <= line as u16 + 16 {
                continue;
            }
            if sprite.x_pos == 0 || sprite.x_pos >= 168 {
                continue;
            }
            let mut sprite_line: u8 = line + 16 - sprite.y_pos;
            let mut tile_number = sprite.tile_number;
            if sprite.y_flip() {
                sprite_line = max_height - 1 - sprite_line;
            }
            if mode_8x16 && sprite_line > 7 {
                sprite_line = sprite_line % 8;
                tile_number = tile_number | 0x01;
            }
            assert(sprite_row(sprite, line, sprite_height(*mmu)) == (tile_number, sprite_line as int));
            let palette = if sprite.palette() {
                mmu.colors.obp1_palette()
            } else {
                mmu.colors.obp0_palette()
            };
            let behind_bg = sprite.obj_to_bg_priority();
            let x_flip = sprite.x_flip();
            let (lo, hi) = mmu.vram.get_tile_data(true, false, tile_number, sprite_line);
            let mut k: u8 = 0;
            while k < 8
                invariant
                    k <= 8,
                    line < 144,
                    mmu.wf(),
                    1 <= sprite.x_pos < 168,
                    sprite_on_line(sprite, line, sprite_height(*mmu)),
                    sprite_row(sprite, line, sprite_height(*mmu)) == (tile_number, sprite_line as int),
                    sprite_line < 8,
                    lo == mmu.vram.bank_view(false)[tile_offset(true, tile_number) + sprite_line * 2],
                    hi == mmu.vram.bank_view(false)[tile_offset(true, tile_number) + sprite_line * 2 + 1],
                    palette == (if bit_of(sprite.flags, 4) {
                        Palette::mono_spec(mmu.colors.ff49_obp1)
                    } else {
                        Palette::mono_spec(mmu.colors.ff48_obp0)
                    }),
                    behind_bg == bit_of(sprite.flags, 7),
                    x_flip == bit_of(sprite.flags, 5),
                    before.wf(),
                    self.screen.wf(),
                    *self == (GPU { screen: self.screen, ..*old(self) }),
                    same_outside_row(before.frame_buffer@, self.screen.frame_buffer@, line as int),
                    forall|x: int|
                        0 <= x < 160 ==> #[trigger] self.screen.pixel(x, line as int) == if sprite.x_pos - 8 <= x
                            < sprite.x_pos - 8 + k {
                            sprite_over(*mmu, sprite, line, x, before.pixel(x, line as int))
                        } else {
                            before.pixel(x, line as int)
                        },
                decreases 8 - k,
            {
                let px: u16 = sprite.x_pos as u16 + k as u16;
                let bp: u8 = if x_flip { k } else { 7 - k };
                let ghost kk = k;
                let ghost cur = self.screen;
                k = k + 1;
                if px < 8 || px >= 168 {
                    assert forall|x: int| 0 <= x < 160 implies #[trigger] self.screen.pixel(x, line as int)
                        == if sprite.x_pos - 8 <= x < sprite.x_pos - 8 + k {
                        sprite_over(*mmu, sprite, line, x, before.pixel(x, line as int))
                    } else {
                        before.pixel(x, line as int)
                    } by {
                        assert(cur.pixel(x, line as int) == self.screen.pixel(x, line as int));
                    }
                    continue;
                }
                let x: u8 = (px - 8) as u8;
                let ci = tile_pixel(lo, hi, bp);
                let under = self.screen.color_at(x, line);
                if ci != 0 {
                    let color = palette.color(ci);
                    let bg_zero = under.0 == ZERO_SHADE && under.1 == ZERO_SHADE && under.2 == ZERO_SHADE;
                    if bg_zero || !behind_bg {
                        self.screen.draw_at(x, line, color.0, color.1, color.2);
                    }
                }
                assert forall|z: int| 0 <= z < 160 implies #[trigger] self.screen.pixel(z, line as int)
                    == if sprite.x_pos - 8 <= z < sprite.x_pos - 8 + k {
                    sprite_over(*mmu, sprite, line, z, before.pixel(z, line as int))
                } else {
                    before.pixel(z, line as int)
                } by {
                    if z != x as int {
                        assert(cur.pixel(z, line as int) == self.screen.pixel(z, line as int));
                    } else {
                        assert(cur.pixel(z, line as int) == before.pixel(z, line as int));
                    }
                }
                proof {
                    assert(same_outside_row(before.frame_buffer@, self.screen.frame_buffer@, line as int));
                }
            }
        }
    }
}

/// The mode lengths of one visible line add up to 456 T-cycles, and a frame of 144
/// such lines and V-Blank takes 70224.
pub proof fn lemma_frame_timing()
    ensures
        SEARCH_OAM_LENGTH + READ_OAM_LENGTH + HBLANK_LENGTH == LINE_LENGTH,
        VBLANK_LENGTH == 10 * LINE_LENGTH,
        FULL_FRAME == LINE_LENGTH * 154,
        FULL_FRAME == 70224,
{
}

} // verus!
