use vstd::prelude::*;
use crate::bits::{bit_of, get_bit, set_bit, with_bit};

verus! {

/// PPU mode, as STAT bits 1..0 encode it.
#[derive(Debug, Clone, Copy, PartialEq, Eq, Structural)]
pub enum Mode {
    HBlank,
    VBlank,
    SearchOAM,
    ReadOAM,
}

impl Mode {
    pub open spec fn code(self) -> u8 {
        match self {
            Mode::HBlank => 0,
            Mode::VBlank => 1,
            Mode::SearchOAM => 2,
            Mode::ReadOAM => 3,
        }
    }

    pub open spec fn of_code(b: u8) -> Mode {
        if b == 1 {
            Mode::VBlank
        } else if b == 2 {
            Mode::SearchOAM
        } else if b == 3 {
            Mode::ReadOAM
        } else {
            Mode::HBlank
        }
    }

    /// The STAT encoding of the mode.
    pub fn to_u8(self) -> (r: u8)
        ensures
            r == self.code(),
    {
        match self {
            Mode::HBlank => 0,
            Mode::VBlank => 1,
            Mode::SearchOAM => 2,
            Mode::ReadOAM => 3,
        }
    }

    /// Decodes a STAT mode code; values above 3 give HBlank.
    pub fn from_u8(value: u8) -> (r: Mode)
        ensures
            r == Mode::of_code(value),
    {
        match value {
            1 => Mode::VBlank,
            2 => Mode::SearchOAM,
            3 => Mode::ReadOAM,
            _ => Mode::HBlank,
        }
    }
}

/// The LCD registers LCDC, STAT, SCY, SCX, LY, LYC, WY and WX.
pub struct LCD {
    pub ff40_lcdc: u8,
    pub ff41_stat: u8,
    pub ff42_scy: u8,
    pub ff43_scx: u8,
    pub ff44_ly: u8,
    pub ff45_lyc: u8,
    pub ff4a_wy: u8,
    pub ff4b_wx: u8,
}

impl LCD {
    pub fn new() -> (r: Self)
        ensures
            r.ff40_lcdc == 0 && r.ff41_stat == 0 && r.ff42_scy == 0 && r.ff43_scx == 0
                && r.ff44_ly == 0 && r.ff45_lyc == 0 && r.ff4a_wy == 0 && r.ff4b_wx == 0,
    {
        LCD {
            ff40_lcdc: 0,
            ff41_stat: 0,
            ff42_scy: 0,
            ff43_scx: 0,
            ff44_ly: 0,
            ff45_lyc: 0,
            ff4a_wy: 0,
            ff4b_wx: 0,
        }
    }

    /// LCDC bit 7.
    pub fn display_enable(&self) -> (r: bool)
        ensures r == bit_of(self.ff40_lcdc, 7),
    {
        get_bit(self.ff40_lcdc, 7)
    }

    /// LCDC bit 6: window tile map at 0x9C00 (else 0x9800).
    pub fn window_tile_map(&self) -> (r: bool)
        ensures r == bit_of(self.ff40_lcdc, 6),
    {
        get_bit(self.ff40_lcdc, 6)
    }

    /// LCDC bit 5.
    pub fn window_enable(&self) -> (r: bool)
        ensures r == bit_of(self.ff40_lcdc, 5),
    {
        get_bit(self.ff40_lcdc, 5)
    }

    /// LCDC bit 4: tile data at 0x8000 unsigned (else 0x9000 signed).
    pub fn tile_data_select(&self) -> (r: bool)
        ensures r == bit_of(self.ff40_lcdc, 4),
    {
        get_bit(self.ff40_lcdc, 4)
    }

    /// LCDC bit 3: background tile map at 0x9C00 (else 0x9800).
    pub fn bg_tile_map(&self) -> (r: bool)
        ensures r == bit_of(self.ff40_lcdc, 3),
    {
        get_bit(self.ff40_lcdc, 3)
    }

    /// LCDC bit 2: 8x16 sprites (else 8x8).
    pub fn sprite_size(&self) -> (r: bool)
        ensures r == bit_of(self.ff40_lcdc, 2),
    {
        get_bit(self.ff40_lcdc, 2)
    }

    /// LCDC bit 1.
    pub fn sprite_enable(&self) -> (r: bool)
        ensures r == bit_of(self.ff40_lcdc, 1),
    {
        get_bit(self.ff40_lcdc, 1)
    }

    /// LCDC bit 0.
    pub fn bg_enable(&self) -> (r: bool)
        ensures r == bit_of(self.ff40_lcdc, 0),
    {
        get_bit(self.ff40_lcdc, 0)
    }

    /// STAT bit 6.
    pub fn lyc_ly_coincidence_interrupt(&self) -> (r: bool)
        ensures r == bit_of(self.ff41_stat, 6),
    {
        get_bit(self.ff41_stat, 6)
    }

    /// STAT bit 5.
    pub fn mode_2_oam_interrupt(&self) -> (r: bool)
        ensures r == bit_of(self.ff41_stat, 5),
    {
        get_bit(self.ff41_stat, 5)
    }

    /// STAT bit 4.
    pub fn mode_1_vblank_interrupt(&self) -> (r: bool)
        ensures r == bit_of(self.ff41_stat, 4),
    {
        get_bit(self.ff41_stat, 4)
    }

    /// STAT bit 3.
    pub fn mode_0_hblank_interrupt(&self) -> (r: bool)
        ensures r == bit_of(self.ff41_stat, 3),
    {
        get_bit(self.ff41_stat, 3)
    }

    /// STAT bit 2: LY == LYC.
    pub fn coincidence_flag_interrupt(&self) -> (r: bool)
        ensures r == bit_of(self.ff41_stat, 2),
    {
        get_bit(self.ff41_stat, 2)
    }

    pub fn set_coincidence_flag_interrupt(&mut self, value: bool)
        ensures
            *final(self) == (LCD { ff41_stat: with_bit(old(self).ff41_stat, 2, value), ..*old(self) }),
    {
        set_bit(&mut self.ff41_stat, 2, value);
    }

    /// STAT bits 1..0.
    pub fn mode_flag(&self) -> (r: Mode)
        ensures
            r == Mode::of_code(self.ff41_stat % 4),
    {
        Mode::from_u8(self.ff41_stat % 4)
    }

    pub fn set_mode_flag(&mut self, mode: Mode)
        ensures
            *final(self) == (LCD {
                ff41_stat: (old(self).ff41_stat / 4 * 4 + mode.code()) as u8,
                ..*old(self)
            }),
    {
        let m: u8 = mode.to_u8();
        self.ff41_stat = self.ff41_stat / 4 * 4 + m;
    }
}

} // verus!
