use vstd::prelude::*;
use crate::bits::{byte_or_ff, read_or_ff};

verus! {

/// A cartridge with 32 KiB of ROM and no controller.
pub struct RomOnly {
    rom: Vec<u8>,
}

impl RomOnly {
    /// The ROM image.
    pub closed spec fn rom_view(&self) -> Seq<u8> {
        self.rom@
    }

    /// The byte that a read at `addr` returns: the ROM byte below 0x8000, and 0xFF
    /// elsewhere (no external RAM is fitted).
    pub open spec fn read_spec(&self, addr: u16) -> u8 {
        if addr <= 0x7FFF {
            byte_or_ff(self.rom_view(), addr as int)
        } else {
            0xFF
        }
    }

    pub fn new(rom: Vec<u8>) -> (r: Self)
        ensures
            r.rom_view() == rom@,
    {
        RomOnly { rom }
    }

    pub fn read(&self, addr: u16) -> (r: u8)
        ensures
            r == self.read_spec(addr),
    {
        if addr <= 0x7FFF {
            read_or_ff(&self.rom, addr as usize)
        } else {
            0xFF
        }
    }

    /// Writes reach no register: the cartridge is left as it is.
    pub fn write(&mut self, addr: u16, value: u8)
        ensures
            *final(self) == *old(self),
    {
    }
}

} // verus!
