use vstd::prelude::*;
use crate::bits::{byte_or_ff, read_or_ff};

verus! {

/// The MBC5 controller: 9-bit ROM bank, 4-bit RAM bank.
pub struct MBC5 {
    ram: Vec<u8>,
    rom: Vec<u8>,
    ram_bank: usize,
    rom_bank: usize,
    ram_enable: bool,
}

impl MBC5 {
    pub closed spec fn rom_view(&self) -> Seq<u8> {
        self.rom@
    }

    pub closed spec fn ram_view(&self) -> Seq<u8> {
        self.ram@
    }

    pub closed spec fn ram_enabled(&self) -> bool {
        self.ram_enable
    }

    /// The 9-bit ROM bank mapped at 0x4000..=0x7FFF.
    pub closed spec fn rom_bank_num(&self) -> int {
        self.rom_bank as int
    }

    /// The 4-bit RAM bank mapped at 0xA000..=0xBFFF.
    pub closed spec fn ram_bank_num(&self) -> int {
        self.ram_bank as int
    }

    pub closed spec fn wf(&self) -> bool {
        self.rom_bank < 512 && self.ram_bank < 16
    }

    /// The byte that a read at `addr` returns.
    pub open spec fn read_spec(&self, addr: u16) -> u8 {
        if addr <= 0x3FFF {
            byte_or_ff(self.rom_view(), addr as int)
        } else if addr <= 0x7FFF {
            byte_or_ff(self.rom_view(), self.rom_bank_num() * 0x4000 + addr as int - 0x4000)
        } else if 0xA000 <= addr <= 0xBFFF {
            if self.ram_enabled() {
                byte_or_ff(self.ram_view(), self.ram_bank_num() * 0x2000 + addr as int - 0xA000)
            } else {
                0x00
            }
        } else {
            0xFF
        }
    }

    pub fn new(ram: Vec<u8>, rom: Vec<u8>) -> (r: Self)
        ensures
            r.wf(),
            r.rom_view() == rom@,
            r.ram_view() == ram@,
            !r.ram_enabled(),
            r.rom_bank_num() == 0,
            r.ram_bank_num() == 0,
    {
        Self { ram, rom, ram_bank: 0, rom_bank: 0, ram_enable: false }
    }

    pub fn read(&self, addr: u16) -> (r: u8)
        requires
            self.wf(),
        ensures
            r == self.read_spec(addr),
    {
        if addr <= 0x3FFF {
            read_or_ff(&self.rom, addr as usize)
        } else if addr <= 0x7FFF {
            read_or_ff(&self.rom, self.rom_bank * 0x4000 + addr as usize - 0x4000)
        } else if 0xA000 <= addr && addr <= 0xBFFF {
            if self.ram_enable {
                read_or_ff(&self.ram, self.ram_bank * 0x2000 + addr as usize - 0xA000)
            } else {
                0x00
            }
        } else {
            0xFF
        }
    }

    /// A register write below 0x8000, or an external RAM write at 0xA000..=0xBFFF.
    pub fn write(&mut self, addr: u16, value: u8)
        requires
            old(self).wf(),
        ensures
            final(self).wf(),
            final(self).rom_view() == old(self).rom_view(),
            final(self).ram_enabled() == if addr <= 0x1FFF {
                value % 16 == 0x0A
            } else {
                old(self).ram_enabled()
            },
            final(self).rom_bank_num() == if 0x2000 <= addr <= 0x2FFF {
                (old(self).rom_bank_num() / 256) * 256 + value as int
            } else if 0x3000 <= addr <= 0x3FFF {
                old(self).rom_bank_num() % 256 + if value % 2 == 1 { 256int } else { 0int }
            } else {
                old(self).rom_bank_num()
            },
            final(self).ram_bank_num() == if 0x4000 <= addr <= 0x5FFF {
                value as int % 16
            } else {
                old(self).ram_bank_num()
            },
            final(self).ram_view() == if 0xA000 <= addr <= 0xBFFF && old(self).ram_enabled() {
                let i = old(self).ram_bank_num() * 0x2000 + addr as int - 0xA000;
                if 0 <= i < old(self).ram_view().len() {
                    old(self).ram_view().update(i, value)
                } else {
                    old(self).ram_view()
                }
            } else {
                old(self).ram_view()
            },
    {
        if addr <= 0x1FFF {
            self.ram_enable = value % 16 == 0x0A;
        } else if addr <= 0x2FFF {
            self.rom_bank = (self.rom_bank / 256) * 256 + value as usize;
        } else if addr <= 0x3FFF {
            self.rom_bank = self.rom_bank % 256 + if value % 2 == 1 { 256 } else { 0 };
        } else if addr <= 0x5FFF {
            self.ram_bank = value as usize % 16;
        } else if 0xA000 <= addr && addr <= 0xBFFF {
            if self.ram_enable {
                let i: usize = self.ram_bank * 0x2000 + addr as usize - 0xA000;
                if i < self.ram.len() {
                    self.ram.set(i, value);
                }
            }
        }
    }
}

} // verus!
