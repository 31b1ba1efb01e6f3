use vstd::prelude::*;
use crate::bits::zeroed;

verus! {

/// Channel value of the lightest shade. A pixel of colour (0xED, 0xED, 0xED) is
/// background colour 0 for the sprite priority rule.
pub const ZERO_SHADE: u8 = 0xED;

/// The lightest shade, standing for palette index 0.
pub open spec fn color_zero() -> (u8, u8, u8) {
    (ZERO_SHADE, ZERO_SHADE, ZERO_SHADE)
}

/// The grey of each 2-bit DMG shade number.
pub open spec fn mono_shade(k: int) -> (u8, u8, u8) {
    if k == 0 {
        color_zero()
    } else if k == 1 {
        (0x99, 0x99, 0x99)
    } else if k == 2 {
        (0x66, 0x66, 0x66)
    } else {
        (0x21, 0x21, 0x21)
    }
}

/// The colour of a little-endian RGB555 entry: each 5-bit channel times 8, with black
/// replaced by the lightest shade.
pub open spec fn rgb555(lo: u8, hi: u8) -> (u8, u8, u8) {
    let bits = lo as int + hi as int * 256;
    let c = (((bits % 32) * 8) as u8, ((bits / 32 % 32) * 8) as u8, ((bits / 1024 % 32) * 8) as u8);
    if c == (0u8, 0u8, 0u8) {
        color_zero()
    } else {
        c
    }
}

/// Four colours, one for each 2-bit colour index.
#[derive(Clone, Copy)]
pub struct Palette {
    pub c0: (u8, u8, u8),
    pub c1: (u8, u8, u8),
    pub c2: (u8, u8, u8),
    pub c3: (u8, u8, u8),
}

impl Palette {
    pub open spec fn color_spec(&self, idx: u8) -> (u8, u8, u8) {
        if idx == 0 {
            self.c0
        } else if idx == 1 {
            self.c1
        } else if idx == 2 {
            self.c2
        } else {
            self.c3
        }
    }

    /// The DMG palette that register value `raw` selects: shade number of index `i`
    /// in bits `2i+1..2i`.
    pub open spec fn mono_spec(raw: u8) -> Palette {
        Palette {
            c0: mono_shade(raw as int % 4),
            c1: mono_shade(raw as int / 4 % 4),
            c2: mono_shade(raw as int / 16 % 4),
            c3: mono_shade(raw as int / 64 % 4),
        }
    }

    fn shade(k: u8) -> (r: (u8, u8, u8))
        ensures
            r == mono_shade(k as int),
    {
        if k == 0 {
            (ZERO_SHADE, ZERO_SHADE, ZERO_SHADE)
        } else if k == 1 {
            (0x99, 0x99, 0x99)
        } else if k == 2 {
            (0x66, 0x66, 0x66)
        } else {
            (0x21, 0x21, 0x21)
        }
    }

    pub fn new_mono_palette(raw: u8) -> (r: Palette)
        ensures
            r == Palette::mono_spec(raw),
    {
        Palette {
            c0: Self::shade(raw % 4),
            c1: Self::shade(raw / 4 % 4),
            c2: Self::shade(raw / 16 % 4),
            c3: Self::shade(raw / 64 % 4),
        }
    }

    /// The colour of index `idx` (0..=3).
    pub fn color(&self, idx: u8) -> (r: (u8, u8, u8))
        requires
            idx < 4,
        ensures
            r == self.color_spec(idx),
    {
        if idx == 0 {
            self.c0
        } else if idx == 1 {
            self.c1
        } else if idx == 2 {
            self.c2
        } else {
            self.c3
        }
    }
}

/// The palette registers: BGP, OBP0, OBP1, and the CGB background palette RAM with its
/// index register BCPS.
pub struct Colors {
    pub ff47_bgp: u8,
    pub ff48_obp0: u8,
    pub ff49_obp1: u8,
    pub ff68_bcps_bgpi: u8,
    pub ff69_bcpd_bgpd: Vec<u8>,
}

impl Colors {
    /// The 64 bytes of CGB background palette RAM.
    pub open spec fn palette_ram(&self) -> Seq<u8> {
        self.ff69_bcpd_bgpd@
    }

    pub open spec fn wf(&self) -> bool {
        self.palette_ram().len() == 64
    }

    pub fn new() -> (r: Self)
        ensures
            r.wf(),
            r.ff47_bgp == 0 && r.ff48_obp0 == 0 && r.ff49_obp1 == 0 && r.ff68_bcps_bgpi == 0,
            forall|i: int| 0 <= i < 64 ==> r.palette_ram()[i] == 0,
    {
        Colors { ff47_bgp: 0, ff48_obp0: 0, ff49_obp1: 0, ff68_bcps_bgpi: 0, ff69_bcpd_bgpd: zeroed(64) }
    }

    pub fn bgp_palette(&self) -> (r: Palette)
        ensures
            r == Palette::mono_spec(self.ff47_bgp),
    {
        Palette::new_mono_palette(self.ff47_bgp)
    }

    pub fn obp0_palette(&self) -> (r: Palette)
        ensures
            r == Palette::mono_spec(self.ff48_obp0),
    {
        Palette::new_mono_palette(self.ff48_obp0)
    }

    pub fn obp1_palette(&self) -> (r: Palette)
        ensures
            r == Palette::mono_spec(self.ff49_obp1),
    {
        Palette::new_mono_palette(self.ff49_obp1)
    }

    /// CGB background palette `idx` (0..=7), from eight bytes of palette RAM.
    pub open spec fn cgb_spec(&self, idx: u8) -> Palette {
        let b = idx as int * 8;
        let ram = self.palette_ram();
        Palette {
            c0: rgb555(ram[b], ram[b + 1]),
            c1: rgb555(ram[b + 2], ram[b + 3]),
            c2: rgb555(ram[b + 4], ram[b + 5]),
            c3: rgb555(ram[b + 6], ram[b + 7]),
        }
    }

    fn rgb_at(&self, offset: usize) -> (r: (u8, u8, u8))
        requires
            self.wf(),
            offset + 1 < 64,
        ensures
            r == rgb555(self.palette_ram()[offset as int], self.palette_ram()[offset + 1]),
    {
        let lo = self.ff69_bcpd_bgpd[offset];
        let hi = self.ff69_bcpd_bgpd[offset + 1];
        let bits: u16 = lo as u16 + hi as u16 * 256;
        let c: (u8, u8, u8) = ((bits % 32 * 8) as u8, (bits / 32 % 32 * 8) as u8, (bits / 1024 % 32 * 8) as u8);
        if c.0 == 0 && c.1 == 0 && c.2 == 0 {
            (ZERO_SHADE, ZERO_SHADE, ZERO_SHADE)
        } else {
            c
        }
    }

    pub fn cgb_bgp_palette(&self, idx: u8) -> (r: Palette)
        requires
            self.wf(),
            idx < 8,
        ensures
            r == self.cgb_spec(idx),
    {
        let b: usize = idx as usize * 8;
        Palette {
            c0: self.rgb_at(b),
            c1: self.rgb_at(b + 2),
            c2: self.rgb_at(b + 4),
            c3: self.rgb_at(b + 6),
        }
    }

    /// BCPD read: the palette RAM byte at the low 6 bits of BCPS.
    pub fn ff69_bcpd_bgpd(&self) -> (r: u8)
        requires
            self.wf(),
        ensures
            r == self.palette_ram()[self.ff68_bcps_bgpi as int % 64],
    {
        self.ff69_bcpd_bgpd[(self.ff68_bcps_bgpi % 64) as usize]
    }

    /// BCPD write: stores at the low 6 bits of BCPS, then, if BCPS bit 7 is set, moves
    /// the index on by one modulo 64.
    pub fn set_ff69_bcpd_bgpd(&mut self, value: u8)
        requires
            old(self).wf(),
        ensures
            final(self).wf(),
            final(self).palette_ram() == old(self).palette_ram().update(
                old(self).ff68_bcps_bgpi as int % 64,
                value,
            ),
            final(self).ff68_bcps_bgpi == if old(self).ff68_bcps_bgpi >= 0x80 {
                (0x80 + (old(self).ff68_bcps_bgpi as int % 64 + 1) % 64) as u8
            } else {
                old(self).ff68_bcps_bgpi
            },
            final(self).ff47_bgp == old(self).ff47_bgp,
            final(self).ff48_obp0 == old(self).ff48_obp0,
            final(self).ff49_obp1 == old(self).ff49_obp1,
    {
        let idx: u8 = self.ff68_bcps_bgpi % 64;
        self.ff69_bcpd_bgpd.set(idx as usize, value);
        if self.ff68_bcps_bgpi >= 0x80 {
            self.ff68_bcps_bgpi = 0x80 + (idx + 1) % 64;
        }
    }
}

} // verus!
