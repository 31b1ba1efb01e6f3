use vstd::prelude::*;
use crate::bits::zeroed;

verus! {

/// One cell of a tile map: the tile index (bank 0) and its CGB attributes (bank 1).
#[derive(Clone, Copy, PartialEq, Eq, Structural)]
pub struct TileMapCell {
    pub index: u8,
    pub attrs: u8,
}

impl TileMapCell {
    pub fn idx(&self) -> (r: u8)
        ensures r == self.index,
    {
        self.index
    }

    /// Attribute bits 2..0.
    pub fn cgb_palette_number(&self) -> (r: u8)
        ensures r == self.attrs % 8,
    {
        self.attrs % 8
    }

    /// Attribute bit 3: tile data in VRAM bank 1.
    pub fn bank(&self) -> (r: bool)
        ensures r == (self.attrs / 8 % 2 == 1),
    {
        self.attrs / 8 % 2 == 1
    }
}

/// Offset in a VRAM bank of the 16 bytes of tile `idx`: from 0x8000 unsigned when
/// `table` is set, else from 0x9000 with `idx` signed.
pub open spec fn tile_offset(table: bool, idx: u8) -> int {
    if table || idx >= 128 {
        idx as int * 16
    } else {
        0x1000 + idx as int * 16
    }
}

/// Offset in a VRAM bank of cell (x, y) of tile map 0 (0x9800) or 1 (0x9C00).
pub open spec fn tile_map_offset(map: bool, x: int, y: int) -> int {
    0x1800 + (if map { 0x400int } else { 0int }) + y * 32 + x
}

/// Video RAM: two 8 KiB banks, the one seen by the CPU chosen by VBK (0xFF4F) bit 0.
pub struct VRAM {
    pub ff4f_vbk: u8,
    pub bank0: Vec<u8>,
    pub bank1: Vec<u8>,
}

impl VRAM {
    pub open spec fn bank_view(&self, bank: bool) -> Seq<u8> {
        if bank {
            self.bank1@
        } else {
            self.bank0@
        }
    }

    pub open spec fn wf(&self) -> bool {
        self.bank_view(false).len() == 0x2000 && self.bank_view(true).len() == 0x2000
    }

    /// The bank that CPU accesses reach.
    pub open spec fn cpu_bank(&self) -> bool {
        self.ff4f_vbk % 2 == 1
    }

    pub fn new() -> (r: Self)
        ensures
            r.wf(),
            r.ff4f_vbk == 0,
            forall|i: int| 0 <= i < 0x2000 ==> r.bank_view(false)[i] == 0 && r.bank_view(true)[i] == 0,
    {
        VRAM { ff4f_vbk: 0, bank0: zeroed(0x2000), bank1: zeroed(0x2000) }
    }

    pub fn read(&self, addr: u16) -> (r: u8)
        requires
            self.wf(),
            0x8000 <= addr <= 0x9FFF,
        ensures
            r == self.bank_view(self.cpu_bank())[addr - 0x8000],
    {
        if self.ff4f_vbk % 2 == 1 {
            self.bank1[(addr - 0x8000) as usize]
        } else {
            self.bank0[(addr - 0x8000) as usize]
        }
    }

    pub fn write(&mut self, addr: u16, value: u8)
        requires
            old(self).wf(),
            0x8000 <= addr <= 0x9FFF,
        ensures
            final(self).wf(),
            final(self).ff4f_vbk == old(self).ff4f_vbk,
            final(self).bank_view(old(self).cpu_bank()) == old(self).bank_view(
                old(self).cpu_bank(),
            ).update(addr - 0x8000, value),
            final(self).bank_view(!old(self).cpu_bank()) == old(self).bank_view(
                !old(self).cpu_bank(),
            ),
    {
        if self.ff4f_vbk % 2 == 1 {
            self.bank1.set((addr - 0x8000) as usize, value);
        } else {
            self.bank0.set((addr - 0x8000) as usize, value);
        }
    }

    /// Cell (tile_x, tile_y) of the tile map that `tile_map` selects.
    pub fn get_tilemap_cell(&self, tile_map: bool, tile_x: u8, tile_y: u8) -> (r: TileMapCell)
        requires
            self.wf(),
            tile_x < 32,
            tile_y < 32,
        ensures
            r.index == self.bank_view(false)[tile_map_offset(tile_map, tile_x as int, tile_y as int)],
            r.attrs == self.bank_view(true)[tile_map_offset(tile_map, tile_x as int, tile_y as int)],
    {
        let off: usize = 0x1800 + (if tile_map { 0x400 } else { 0 }) + tile_y as usize * 32
            + tile_x as usize;
        TileMapCell { index: self.bank0[off], attrs: self.bank1[off] }
    }

    /// The two bytes of row `row` (0..=7) of tile `idx` in bank `bank`, as addressed
    /// through the data table that `tile_data_table` selects.
    pub fn get_tile_data(&self, tile_data_table: bool, bank: bool, idx: u8, row: u8) -> (r: (u8, u8))
        requires
            self.wf(),
            row < 8,
        ensures
            r.0 == self.bank_view(bank)[tile_offset(tile_data_table, idx) + row * 2],
            r.1 == self.bank_view(bank)[tile_offset(tile_data_table, idx) + row * 2 + 1],
    {
        let base: usize = if tile_data_table || idx >= 128 {
            idx as usize * 16
        } else {
            0x1000 + idx as usize * 16
        };
        let off: usize = base + row as usize * 2;
        if bank {
            (self.bank1[off], self.bank1[off + 1])
        } else {
            (self.bank0[off], self.bank0[off + 1])
        }
    }
}

} // verus!
