use vstd::prelude::*;
use crate::bits::{byte_or_ff, read_or_ff};

verus! {

/// ROM bank mapped at 0x0000..=0x3FFF.
pub open spec fn mbc1_low_bank(mode: bool, upper: u8) -> int {
    if mode { upper as int * 32 } else { 0 }
}

/// ROM bank mapped at 0x4000..=0x7FFF.
pub open spec fn mbc1_high_bank(mode: bool, upper: u8, reg: u8) -> int {
    if mode { reg as int } else { upper as int * 32 + reg as int }
}

/// RAM bank mapped at 0xA000..=0xBFFF.
pub open spec fn mbc1_ram_bank(mode: bool, upper: u8) -> int {
    if mode { upper as int } else { 0 }
}

/// The MBC1 controller: 5-bit ROM bank register, 2-bit secondary register, mode bit.
pub struct MBC1 {
    banking_mode_select: bool,
    ram: Vec<u8>,
    rom: Vec<u8>,
    ram_bank: u8,
    rom_bank: u8,
    ram_enable: bool,
    lower_rom_bank: u8,
    rom_bank_reg: u8,
    bank_or_upper_rom_bank_reg: u8,
    banked_reg: bool,
}

impl MBC1 {
    pub closed spec fn rom_view(&self) -> Seq<u8> {
        self.rom@
    }

    pub closed spec fn ram_view(&self) -> Seq<u8> {
        self.ram@
    }

    /// Whether the mode bit can be written (large cartridges only).
    pub closed spec fn large(&self) -> bool {
        self.banking_mode_select
    }

    pub closed spec fn ram_enabled(&self) -> bool {
        self.ram_enable
    }

    /// The 5-bit ROM bank register.
    pub closed spec fn rom_reg(&self) -> u8 {
        self.rom_bank_reg
    }

    /// The 2-bit secondary register.
    pub closed spec fn upper_reg(&self) -> u8 {
        self.bank_or_upper_rom_bank_reg
    }

    /// The mode bit.
    pub closed spec fn mode(&self) -> bool {
        self.banked_reg
    }

    pub closed spec fn low_area_bank(&self) -> int {
        self.lower_rom_bank as int
    }

    pub closed spec fn high_area_bank(&self) -> int {
        self.rom_bank as int
    }

    pub closed spec fn ram_area_bank(&self) -> int {
        self.ram_bank as int
    }

    /// Registers within their widths, and the mapped banks derived from them.
    pub closed spec fn wf(&self) -> bool {
        &&& 1 <= self.rom_bank_reg <= 31
        &&& self.bank_or_upper_rom_bank_reg <= 3
        &&& self.lower_rom_bank as int == mbc1_low_bank(self.banked_reg, self.bank_or_upper_rom_bank_reg)
        &&& self.rom_bank as int == mbc1_high_bank(
            self.banked_reg,
            self.bank_or_upper_rom_bank_reg,
            self.rom_bank_reg,
        )
        &&& self.ram_bank as int == mbc1_ram_bank(self.banked_reg, self.bank_or_upper_rom_bank_reg)
    }

    /// The registers and mapped banks, as the public specification reads them.
    pub open spec fn banks_agree(&self) -> bool {
        &&& 1 <= self.rom_reg() <= 31
        &&& self.upper_reg() <= 3
        &&& self.low_area_bank() == mbc1_low_bank(self.mode(), self.upper_reg())
        &&& self.high_area_bank() == mbc1_high_bank(self.mode(), self.upper_reg(), self.rom_reg())
        &&& self.ram_area_bank() == mbc1_ram_bank(self.mode(), self.upper_reg())
    }

    pub proof fn lemma_wf(&self)
        requires
            self.wf(),
        ensures
            self.banks_agree(),
    {
    }

    /// The byte that a read at `addr` returns.
    pub open spec fn read_spec(&self, addr: u16) -> u8 {
        if addr <= 0x3FFF {
            byte_or_ff(self.rom_view(), self.low_area_bank() * 0x4000 + addr as int)
        } else if addr <= 0x7FFF {
            byte_or_ff(self.rom_view(), self.high_area_bank() * 0x4000 + addr as int - 0x4000)
        } else if 0xA000 <= addr <= 0xBFFF {
            if self.ram_enabled() {
                byte_or_ff(self.ram_view(), self.ram_area_bank() * 0x2000 + addr as int - 0xA000)
            } else {
                0x00
            }
        } else {
            0xFF
        }
    }

    pub fn new(ram: Vec<u8>, rom: Vec<u8>, banking_mode_select: bool) -> (r: Self)
        ensures
            r.wf(),
            r.rom_view() == rom@,
            r.ram_view() == ram@,
            r.large() == banking_mode_select,
            !r.ram_enabled(),
            r.rom_reg() == 1,
            r.upper_reg() == 0,
            !r.mode(),
    {
        Self {
            banking_mode_select,
            ram,
            rom,
            ram_bank: 0,
            lower_rom_bank: 0,
            rom_bank: 1,
            ram_enable: false,
            rom_bank_reg: 1,
            bank_or_upper_rom_bank_reg: 0,
            banked_reg: false,
        }
    }

    fn update_ram_bank(&mut self)
        requires
            old(self).bank_or_upper_rom_bank_reg <= 3,
        ensures
            *final(self) == (MBC1 {
                ram_bank: mbc1_ram_bank(old(self).banked_reg, old(self).bank_or_upper_rom_bank_reg) as u8,
                ..*old(self)
            }),
    {
        if self.banked_reg {
            self.ram_bank = self.bank_or_upper_rom_bank_reg;
        } else {
            self.ram_bank = 0;
        }
    }

    fn update_rom_bank(&mut self)
        requires
            old(self).bank_or_upper_rom_bank_reg <= 3,
            old(self).rom_bank_reg <= 31,
        ensures
            *final(self) == (MBC1 {
                lower_rom_bank: mbc1_low_bank(old(self).banked_reg, old(self).bank_or_upper_rom_bank_reg) as u8,
                rom_bank: mbc1_high_bank(
                    old(self).banked_reg,
                    old(self).bank_or_upper_rom_bank_reg,
                    old(self).rom_bank_reg,
                ) as u8,
                ..*old(self)
            }),
    {
        if self.banked_reg {
            self.lower_rom_bank = self.bank_or_upper_rom_bank_reg * 32;
            self.rom_bank = self.rom_bank_reg;
        } else {
            self.lower_rom_bank = 0;
            self.rom_bank = self.bank_or_upper_rom_bank_reg * 32 + self.rom_bank_reg;
        }
    }

    pub fn read(&self, addr: u16) -> (r: u8)
        requires
            self.wf(),
        ensures
            r == self.read_spec(addr),
    {
        if addr <= 0x3FFF {
            read_or_ff(&self.rom, self.lower_rom_bank as usize * 0x4000 + addr as usize)
        } else if addr <= 0x7FFF {
            read_or_ff(&self.rom, self.rom_bank as usize * 0x4000 + addr as usize - 0x4000)
        } else if 0xA000 <= addr && addr <= 0xBFFF {
            if self.ram_enable {
                read_or_ff(&self.ram, self.ram_bank as usize * 0x2000 + addr as usize - 0xA000)
            } else {
                0x00
            }
        } else {
            0xFF
        }
    }

    /// A register write below 0x8000, or an external RAM write at 0xA000..=0xBFFF.
    pub fn write(&mut self, addr: u16, value: u8)
        requires
            old(self).wf(),
        ensures
            final(self).wf(),
            final(self).rom_view() == old(self).rom_view(),
            final(self).large() == old(self).large(),
            final(self).ram_enabled() == if addr <= 0x1FFF {
                value % 16 == 0x0A
            } else {
                old(self).ram_enabled()
            },
            final(self).rom_reg() == if 0x2000 <= addr <= 0x3FFF {
                if value % 32 == 0 { 1 } else { value % 32 }
            } else {
                old(self).rom_reg()
            },
            final(self).upper_reg() == if 0x4000 <= addr <= 0x5FFF {
                value % 4
            } else {
                old(self).upper_reg()
            },
            final(self).mode() == if 0x6000 <= addr <= 0x7FFF && old(self).large() {
                value % 2 == 1
            } else {
                old(self).mode()
            },
            final(self).ram_view() == if 0xA000 <= addr <= 0xBFFF && old(self).ram_enabled() {
                let i = old(self).ram_area_bank() * 0x2000 + addr as int - 0xA000;
                if 0 <= i < old(self).ram_view().len() {
                    old(self).ram_view().update(i, value)
                } else {
                    old(self).ram_view()
                }
            } else {
                old(self).ram_view()
            },
    {
        if addr <= 0x1FFF {
            self.ram_enable = value % 16 == 0x0A;
        } else if addr <= 0x3FFF {
            let mut v: u8 = value % 32;
            if v == 0 {
                v = 1;
            }
            self.rom_bank_reg = v;
            self.update_rom_bank();
        } else if addr <= 0x5FFF {
            self.bank_or_upper_rom_bank_reg = value % 4;
            self.update_rom_bank();
            self.update_ram_bank();
        } else if addr <= 0x7FFF {
            if self.banking_mode_select {
                self.banked_reg = value % 2 == 1;
                self.update_rom_bank();
                self.update_ram_bank();
            }
        } else if 0xA000 <= addr && addr <= 0xBFFF {
            if self.ram_enable {
                let i: usize = self.ram_bank as usize * 0x2000 + addr as usize - 0xA000;
                if i < self.ram.len() {
                    self.ram.set(i, value);
                }
            }
        }
    }
}

/// In every reachable controller state the low area shows bank 0, 32, 64 or 96, and
/// the high area never shows bank 0.
pub proof fn lemma_mbc1_bank_ranges(m: &MBC1)
    requires
        m.wf(),
    ensures
        m.low_area_bank() == 0 || m.low_area_bank() == 32 || m.low_area_bank() == 64
            || m.low_area_bank() == 96,
        m.high_area_bank() != 0,
{
    m.lemma_wf();
}

} // verus!
