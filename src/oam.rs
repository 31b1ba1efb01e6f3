use vstd::prelude::*;
use crate::bits::{bit_of, get_bit, zeroed};

verus! {

/// One OAM entry: Y, X, tile index, flags.
#[derive(Clone, Copy, PartialEq, Eq, Structural)]
pub struct Sprite {
    pub y_pos: u8,
    pub x_pos: u8,
    pub tile_number: u8,
    pub flags: u8,
}

impl Sprite {
    /// Flag bit 4: DMG palette OBP1 (else OBP0).
    pub fn palette(&self) -> (r: bool)
        ensures r == bit_of(self.flags, 4),
    {
        get_bit(self.flags, 4)
    }

    /// Flag bit 5.
    pub fn x_flip(&self) -> (r: bool)
        ensures r == bit_of(self.flags, 5),
    {
        get_bit(self.flags, 5)
    }

    /// Flag bit 6.
    pub fn y_flip(&self) -> (r: bool)
        ensures r == bit_of(self.flags, 6),
    {
        get_bit(self.flags, 6)
    }

    /// Flag bit 7: drawn behind background colours 1..=3.
    pub fn obj_to_bg_priority(&self) -> (r: bool)
        ensures r == bit_of(self.flags, 7),
    {
        get_bit(self.flags, 7)
    }
}

/// Object attribute memory (0xFE00..=0xFE9F) and the DMA register 0xFF46.
pub struct OAM {
    pub ff46_dma: u8,
    pub bytes: Vec<u8>,
    pub dma_transfer_requested: bool,
}

impl OAM {
    /// The 160 bytes of the sprite table.
    pub open spec fn view(&self) -> Seq<u8> {
        self.bytes@
    }

    /// The source page latched by the last write to 0xFF46.
    pub open spec fn dma_page(&self) -> u8 {
        self.ff46_dma
    }

    pub open spec fn wf(&self) -> bool {
        self.view().len() == 160
    }

    pub open spec fn sprite_spec(&self, i: int) -> Sprite {
        Sprite {
            y_pos: self.view()[4 * i],
            x_pos: self.view()[4 * i + 1],
            tile_number: self.view()[4 * i + 2],
            flags: self.view()[4 * i + 3],
        }
    }

    pub fn new() -> (r: Self)
        ensures
            r.wf(),
            r.dma_page() == 0,
            !r.dma_transfer_requested,
            forall|i: int| 0 <= i < 160 ==> r.view()[i] == 0,
    {
        OAM { ff46_dma: 0, bytes: zeroed(160), dma_transfer_requested: false }
    }

    pub fn ff46_dma(&self) -> (r: u8)
        ensures r == self.dma_page(),
    {
        self.ff46_dma
    }

    /// Latches the DMA source page and arms the transfer.
    pub fn set_ff46_dma(&mut self, value: u8)
        ensures
            final(self).dma_page() == value,
            final(self).dma_transfer_requested,
            final(self).view() == old(self).view(),
    {
        self.ff46_dma = value;
        self.dma_transfer_requested = true;
    }

    /// Sprite `i` (0..=39).
    pub fn sprite(&self, i: usize) -> (r: Sprite)
        requires
            self.wf(),
            i < 40,
        ensures
            r == self.sprite_spec(i as int),
    {
        Sprite {
            y_pos: self.bytes[4 * i],
            x_pos: self.bytes[4 * i + 1],
            tile_number: self.bytes[4 * i + 2],
            flags: self.bytes[4 * i + 3],
        }
    }

    pub fn read(&self, addr: u16) -> (r: u8)
        requires
            self.wf(),
            0xFE00 <= addr <= 0xFE9F,
        ensures
            r == self.view()[addr - 0xFE00],
    {
        self.bytes[(addr - 0xFE00) as usize]
    }

    pub fn write(&mut self, addr: u16, value: u8)
        requires
            old(self).wf(),
            0xFE00 <= addr <= 0xFE9F,
        ensures
            final(self).view() == old(self).view().update(addr - 0xFE00, value),
            final(self).dma_page() == old(self).dma_page(),
            final(self).dma_transfer_requested == old(self).dma_transfer_requested,
    {
        self.bytes.set((addr - 0xFE00) as usize, value);
    }
}

} // verus!
