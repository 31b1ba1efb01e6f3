use vstd::prelude::*;
use crate::bits::zeroed;
use crate::error::CoreError;
use crate::header::{CartridgeType, RamType, RomType};
use crate::mbc1::MBC1;
use crate::mbc5::MBC5;
use crate::rom_only::RomOnly;

verus! {

/// The memory bank controller of a cartridge.
pub enum Cartridge {
    RomOnly(RomOnly),
    Mbc1(MBC1),
    Mbc5(MBC5),
}

impl Cartridge {
    pub open spec fn wf(&self) -> bool {
        match self {
            Cartridge::RomOnly(_) => true,
            Cartridge::Mbc1(m) => m.wf(),
            Cartridge::Mbc5(m) => m.wf(),
        }
    }

    /// The byte that a read at `addr` returns.
    pub open spec fn read_spec(&self, addr: u16) -> u8 {
        match self {
            Cartridge::RomOnly(c) => c.read_spec(addr),
            Cartridge::Mbc1(m) => m.read_spec(addr),
            Cartridge::Mbc5(m) => m.read_spec(addr),
        }
    }

    /// How a write at `addr` of `value` changes the controller.
    pub open spec fn write_post(old: Cartridge, new: Cartridge, addr: u16, value: u8) -> bool {
        new.wf() && match (old, new) {
            (Cartridge::RomOnly(o), Cartridge::RomOnly(n)) => n == o,
            (Cartridge::Mbc1(o), Cartridge::Mbc1(n)) => mbc1_write_post(o, n, addr, value),
            (Cartridge::Mbc5(o), Cartridge::Mbc5(n)) => mbc5_write_post(o, n, addr, value),
            _ => false,
        }
    }

    pub fn read(&self, addr: u16) -> (r: u8)
        requires
            self.wf(),
        ensures
            r == self.read_spec(addr),
    {
        match self {
            Cartridge::RomOnly(c) => c.read(addr),
            Cartridge::Mbc1(m) => m.read(addr),
            Cartridge::Mbc5(m) => m.read(addr),
        }
    }

    pub fn write(&mut self, addr: u16, value: u8)
        requires
            old(self).wf(),
        ensures
            Cartridge::write_post(*old(self), *final(self), addr, value),
    {
        match self {
            Cartridge::RomOnly(c) => c.write(addr, value),
            Cartridge::Mbc1(m) => m.write(addr, value),
            Cartridge::Mbc5(m) => m.write(addr, value),
        }
    }
}

/// What an MBC1 write does (see `MBC1::write`).
pub open spec fn mbc1_write_post(o: MBC1, n: MBC1, addr: u16, value: u8) -> bool {
    &&& n.wf()
    &&& n.rom_view() == o.rom_view()
    &&& n.large() == o.large()
    &&& n.ram_enabled() == if addr <= 0x1FFF { value % 16 == 0x0A } else { o.ram_enabled() }
    &&& n.rom_reg() == if 0x2000 <= addr <= 0x3FFF {
        if value % 32 == 0 { 1 } else { value % 32 }
    } else {
        o.rom_reg()
    }
    &&& n.upper_reg() == if 0x4000 <= addr <= 0x5FFF { value % 4 } else { o.upper_reg() }
    &&& n.mode() == if 0x6000 <= addr <= 0x7FFF && o.large() { value % 2 == 1 } else { o.mode() }
    &&& n.ram_view() == if 0xA000 <= addr <= 0xBFFF && o.ram_enabled() {
        let i = o.ram_area_bank() * 0x2000 + addr as int - 0xA000;
        if 0 <= i < o.ram_view().len() { o.ram_view().update(i, value) } else { o.ram_view() }
    } else {
        o.ram_view()
    }
}

/// What an MBC5 write does (see `MBC5::write`).
pub open spec fn mbc5_write_post(o: MBC5, n: MBC5, addr: u16, value: u8) -> bool {
    &&& n.wf()
    &&& n.rom_view() == o.rom_view()
    &&& n.ram_enabled() == if addr <= 0x1FFF { value % 16 == 0x0A } else { o.ram_enabled() }
    &&& n.rom_bank_num() == if 0x2000 <= addr <= 0x2FFF {
        (o.rom_bank_num() / 256) * 256 + value as int
    } else if 0x3000 <= addr <= 0x3FFF {
        o.rom_bank_num() % 256 + if value % 2 == 1 { 256int } else { 0int }
    } else {
        o.rom_bank_num()
    }
    &&& n.ram_bank_num() == if 0x4000 <= addr <= 0x5FFF { value as int % 16 } else { o.ram_bank_num() }
    &&& n.ram_view() == if 0xA000 <= addr <= 0xBFFF && o.ram_enabled() {
        let i = o.ram_bank_num() * 0x2000 + addr as int - 0xA000;
        if 0 <= i < o.ram_view().len() { o.ram_view().update(i, value) } else { o.ram_view() }
    } else {
        o.ram_view()
    }
}

/// Header codes of the cartridge types that this core emulates.
pub open spec fn supported_cart_code(b: u8) -> bool {
    b == 0x00 || b == 0x01 || b == 0x02 || b == 0x03 || b == 0x1B
}

/// Whether an MBC1 cartridge can switch banking mode: ROM over 512 KiB or RAM over 8 KiB.
pub open spec fn mbc1_large(rom_type: RomType, ram_type: RamType) -> bool {
    rom_type.banks() * 16 > 512 || ram_type.banks() * 8 > 8
}

/// Zeroed external RAM of the size that `t` names; the size code 0x01 names no RAM
/// that a cartridge has, and is refused.
pub fn external_ram(t: &RamType, code: u8) -> (r: Result<Vec<u8>, CoreError>)
    ensures
        *t == RamType::RamBankUnused ==> r == Err::<Vec<u8>, CoreError>(CoreError::UnsupportedRamType(code)),
        *t != RamType::RamBankUnused ==> (r matches Ok(v) && v@.len() == t.ram_bytes() && forall|i: int|
            0 <= i < v@.len() ==> v@[i] == 0),
{
    let len: usize = match t {
        RamType::RamBankNoRam => 0,
        RamType::RamBankUnused => return Err(CoreError::UnsupportedRamType(code)),
        RamType::RamBank8KByte => 0x2000,
        RamType::RamBank32KByte => 0x2000 * 4,
        RamType::RamBank128KByte => 0x2000 * 16,
        RamType::RamBank64KByte => 0x2000 * 8,
    };
    Ok(zeroed(len))
}

/// A cartridge built from a ROM image, with the header fields it was decoded from.
pub struct DynCartridge {
    pub cart_type: CartridgeType,
    pub ram_type: RamType,
    pub rom_type: RomType,
    pub inner: Cartridge,
}

impl DynCartridge {
    pub open spec fn wf(&self) -> bool {
        self.inner.wf()
    }

    /// The result that `new` gives for a ROM image: which error, if any.
    pub open spec fn header_error(rom: Seq<u8>) -> Option<CoreError> {
        let t = rom[0x147];
        let s = rom[0x148];
        let r = rom[0x149];
        if !CartridgeType::is_known_code(t) {
            Some(CoreError::UnknownCartridgeType(t))
        } else if !(s <= 0x08 || (0x52 <= s && s <= 0x54)) {
            Some(CoreError::UnknownRomType(s))
        } else if r > 0x05 {
            Some(CoreError::UnknownRamType(r))
        } else if r == 0x01 {
            Some(CoreError::UnsupportedRamType(r))
        } else if !supported_cart_code(t) {
            Some(CoreError::UnsupportedCartridgeType(t))
        } else {
            None
        }
    }

    /// Decodes the header at 0x147..=0x149, allocates the external RAM it names, and
    /// builds the matching controller.
    pub fn new(rom: Vec<u8>) -> (r: Result<DynCartridge, CoreError>)
        requires
            rom@.len() >= 0x150,
        ensures
            r is Err <==> Self::header_error(rom@) is Some,
            r matches Err(e) ==> Self::header_error(rom@) == Some(e),
            r matches Ok(c) ==> {
                &&& c.wf()
                &&& c.cart_type.code() == rom@[0x147]
                &&& c.rom_type.code() == rom@[0x148]
                &&& c.ram_type.code() == rom@[0x149]
                &&& match c.inner {
                    Cartridge::RomOnly(x) => rom@[0x147] == 0x00 && x.rom_view() == rom@,
                    Cartridge::Mbc1(m) => {
                        &&& 0x01 <= rom@[0x147] <= 0x03
                        &&& m.rom_view() == rom@
                        &&& m.ram_view().len() == c.ram_type.ram_bytes()
                        &&& m.large() == mbc1_large(c.rom_type, c.ram_type)
                        &&& !m.ram_enabled() && m.rom_reg() == 1 && m.upper_reg() == 0 && !m.mode()
                    },
                    Cartridge::Mbc5(m) => {
                        &&& rom@[0x147] == 0x1B
                        &&& m.rom_view() == rom@
                        &&& m.ram_view().len() == c.ram_type.ram_bytes()
                        &&& !m.ram_enabled() && m.rom_bank_num() == 0 && m.ram_bank_num() == 0
                    },
                }
            },
    {
        let cart_type = match CartridgeType::try_from(rom[0x147]) {
            Ok(t) => t,
            Err(e) => return Err(e),
        };
        let rom_type = match RomType::try_from(rom[0x148]) {
            Ok(t) => t,
            Err(e) => return Err(e),
        };
        let ram_type = match RamType::try_from(rom[0x149]) {
            Ok(t) => t,
            Err(e) => return Err(e),
        };
        let ram = match external_ram(&ram_type, rom[0x149]) {
            Ok(r) => r,
            Err(e) => return Err(e),
        };
        let large = rom_type.memory_size() > 512 || ram_type.memory_size() > 8;
        let inner = match cart_type {
            CartridgeType::ROMOnly => Cartridge::RomOnly(RomOnly::new(rom)),
            CartridgeType::MBC1 | CartridgeType::MBC1Ram | CartridgeType::MBC1RamBattery => {
                Cartridge::Mbc1(MBC1::new(ram, rom, large))
            },
            CartridgeType::MBC5RamBattery => Cartridge::Mbc5(MBC5::new(ram, rom)),
            _ => return Err(CoreError::UnsupportedCartridgeType(rom[0x147])),
        };
        Ok(DynCartridge { cart_type, ram_type, rom_type, inner })
    }

    /// The byte that a read at `addr` returns.
    pub open spec fn read_spec(&self, addr: u16) -> u8 {
        self.inner.read_spec(addr)
    }

    pub fn read(&self, addr: u16) -> (r: u8)
        requires
            self.wf(),
        ensures
            r == self.read_spec(addr),
    {
        self.inner.read(addr)
    }

    pub fn write(&mut self, addr: u16, value: u8)
        requires
            old(self).wf(),
        ensures
            Cartridge::write_post(old(self).inner, final(self).inner, addr, value),
            final(self).cart_type == old(self).cart_type,
            final(self).ram_type == old(self).ram_type,
            final(self).rom_type == old(self).rom_type,
    {
        self.inner.write(addr, value)
    }
}

} // verus!
