use vstd::prelude::*;
use crate::error::CoreError;

verus! {

/// Cartridge type, from header byte 0x147.
#[derive(Debug, Clone, Copy, PartialEq, Eq, Structural)]
pub enum CartridgeType {
    ROMOnly,
    MBC1,
    MBC1Ram,
    MBC1RamBattery,
    MBC2,
    MBC2Battery,
    RomRam,
    RomRamBattery,
    MMM01,
    MMM01Ram,
    MMM01RamBattery,
    MBC3TimerBattery,
    MBC3TimerRamBattery,
    MBC3,
    MBC3Ram,
    MBC3RamBattery,
    MBC5,
    MBC5Ram,
    MBC5RamBattery,
    MBC5Rumble,
    MBC5RumbleRam,
    MBC5RumbleRamBattery,
    MBC6,
    MBC7SensorRumbleRamBattery,
    PocketCamera,
    BandaiTama5,
    HuC3,
    HuC1RamBattery,
}

impl CartridgeType {
    /// The header code of each cartridge type.
    pub open spec fn code(self) -> u8 {
        match self {
            CartridgeType::ROMOnly => 0x00,
            CartridgeType::MBC1 => 0x01,
            CartridgeType::MBC1Ram => 0x02,
            CartridgeType::MBC1RamBattery => 0x03,
            CartridgeType::MBC2 => 0x05,
            CartridgeType::MBC2Battery => 0x06,
            CartridgeType::RomRam => 0x08,
            CartridgeType::RomRamBattery => 0x09,
            CartridgeType::MMM01 => 0x0B,
            CartridgeType::MMM01Ram => 0x0C,
            CartridgeType::MMM01RamBattery => 0x0D,
            CartridgeType::MBC3TimerBattery => 0x0F,
            CartridgeType::MBC3TimerRamBattery => 0x10,
            CartridgeType::MBC3 => 0x11,
            CartridgeType::MBC3Ram => 0x12,
            CartridgeType::MBC3RamBattery => 0x13,
            CartridgeType::MBC5 => 0x19,
            CartridgeType::MBC5Ram => 0x1A,
            CartridgeType::MBC5RamBattery => 0x1B,
            CartridgeType::MBC5Rumble => 0x1C,
            CartridgeType::MBC5RumbleRam => 0x1D,
            CartridgeType::MBC5RumbleRamBattery => 0x1E,
            CartridgeType::MBC6 => 0x20,
            CartridgeType::MBC7SensorRumbleRamBattery => 0x22,
            CartridgeType::PocketCamera => 0xFC,
            CartridgeType::BandaiTama5 => 0xFD,
            CartridgeType::HuC3 => 0xFE,
            CartridgeType::HuC1RamBattery => 0xFF,
        }
    }

    /// The codes that name a cartridge type.
    pub open spec fn is_known_code(b: u8) -> bool {
        (b <= 0x03) || b == 0x05 || b == 0x06 || b == 0x08 || b == 0x09 || (0x0B <= b && b <= 0x0D)
            || (0x0F <= b && b <= 0x13) || (0x19 <= b && b <= 0x1E) || b == 0x20 || b == 0x22
            || b >= 0xFC
    }

    /// Decodes header byte 0x147.
    pub fn try_from(value: u8) -> (r: Result<CartridgeType, CoreError>)
        ensures
            r is Ok <==> Self::is_known_code(value),
            r matches Ok(t) ==> t.code() == value,
            r is Err ==> r == Err::<CartridgeType, CoreError>(CoreError::UnknownCartridgeType(value)),
    {
        match value {
            0x00 => Ok(CartridgeType::ROMOnly),
            0x01 => Ok(CartridgeType::MBC1),
            0x02 => Ok(CartridgeType::MBC1Ram),
            0x03 => Ok(CartridgeType::MBC1RamBattery),
            0x05 => Ok(CartridgeType::MBC2),
            0x06 => Ok(CartridgeType::MBC2Battery),
            0x08 => Ok(CartridgeType::RomRam),
            0x09 => Ok(CartridgeType::RomRamBattery),
            0x0B => Ok(CartridgeType::MMM01),
            0x0C => Ok(CartridgeType::MMM01Ram),
            0x0D => Ok(CartridgeType::MMM01RamBattery),
            0x0F => Ok(CartridgeType::MBC3TimerBattery),
            0x10 => Ok(CartridgeType::MBC3TimerRamBattery),
            0x11 => Ok(CartridgeType::MBC3),
            0x12 => Ok(CartridgeType::MBC3Ram),
            0x13 => Ok(CartridgeType::MBC3RamBattery),
            0x19 => Ok(CartridgeType::MBC5),
            0x1A => Ok(CartridgeType::MBC5Ram),
            0x1B => Ok(CartridgeType::MBC5RamBattery),
            0x1C => Ok(CartridgeType::MBC5Rumble),
            0x1D => Ok(CartridgeType::MBC5RumbleRam),
            0x1E => Ok(CartridgeType::MBC5RumbleRamBattery),
            0x20 => Ok(CartridgeType::MBC6),
            0x22 => Ok(CartridgeType::MBC7SensorRumbleRamBattery),
            0xFC => Ok(CartridgeType::PocketCamera),
            0xFD => Ok(CartridgeType::BandaiTama5),
            0xFE => Ok(CartridgeType::HuC3),
            0xFF => Ok(CartridgeType::HuC1RamBattery),
            _ => Err(CoreError::UnknownCartridgeType(value)),
        }
    }
}

/// ROM size, from header byte 0x148.
#[derive(Debug, Clone, Copy, PartialEq, Eq, Structural)]
pub enum RomType {
    RomBank32KByte,
    RomBank64KByte,
    RomBank128KByte,
    RomBank256KByte,
    RomBank512KByte,
    RomBank1MByte,
    RomBank2MByte,
    RomBank4MByte,
    RomBank8MByte,
    RomBank1_1MByte,
    RomBank1_2MByte,
    RomBank1_5MByte,
}

impl RomType {
    /// Number of 16 KiB banks of each ROM size.
    pub open spec fn banks(self) -> usize {
        match self {
            RomType::RomBank32KByte => 2,
            RomType::RomBank64KByte => 4,
            RomType::RomBank128KByte => 8,
            RomType::RomBank256KByte => 16,
            RomType::RomBank512KByte => 32,
            RomType::RomBank1MByte => 64,
            RomType::RomBank2MByte => 128,
            RomType::RomBank4MByte => 256,
            RomType::RomBank8MByte => 512,
            RomType::RomBank1_1MByte => 72,
            RomType::RomBank1_2MByte => 80,
            RomType::RomBank1_5MByte => 96,
        }
    }

    /// The header code of each ROM size.
    pub open spec fn code(self) -> u8 {
        match self {
            RomType::RomBank32KByte => 0x00,
            RomType::RomBank64KByte => 0x01,
            RomType::RomBank128KByte => 0x02,
            RomType::RomBank256KByte => 0x03,
            RomType::RomBank512KByte => 0x04,
            RomType::RomBank1MByte => 0x05,
            RomType::RomBank2MByte => 0x06,
            RomType::RomBank4MByte => 0x07,
            RomType::RomBank8MByte => 0x08,
            RomType::RomBank1_1MByte => 0x52,
            RomType::RomBank1_2MByte => 0x53,
            RomType::RomBank1_5MByte => 0x54,
        }
    }

    /// Number of 16 KiB ROM banks.
    pub fn nb_bank(&self) -> (r: usize)
        ensures
            r == self.banks(),
    {
        match self {
            RomType::RomBank32KByte => 2,
            RomType::RomBank64KByte => 4,
            RomType::RomBank128KByte => 8,
            RomType::RomBank256KByte => 16,
            RomType::RomBank512KByte => 32,
            RomType::RomBank1MByte => 64,
            RomType::RomBank2MByte => 128,
            RomType::RomBank4MByte => 256,
            RomType::RomBank8MByte => 512,
            RomType::RomBank1_1MByte => 72,
            RomType::RomBank1_2MByte => 80,
            RomType::RomBank1_5MByte => 96,
        }
    }

    /// ROM size in KiB.
    pub fn memory_size(&self) -> (r: usize)
        ensures
            r == self.banks() * 16,
    {
        self.nb_bank() * 16
    }

    /// Decodes header byte 0x148.
    pub fn try_from(value: u8) -> (r: Result<RomType, CoreError>)
        ensures
            r is Ok <==> (value <= 0x08 || (0x52 <= value && value <= 0x54)),
            r matches Ok(t) ==> t.code() == value,
            r is Err ==> r == Err::<RomType, CoreError>(CoreError::UnknownRomType(value)),
    {
        match value {
            0x00 => Ok(RomType::RomBank32KByte),
            0x01 => Ok(RomType::RomBank64KByte),
            0x02 => Ok(RomType::RomBank128KByte),
            0x03 => Ok(RomType::RomBank256KByte),
            0x04 => Ok(RomType::RomBank512KByte),
            0x05 => Ok(RomType::RomBank1MByte),
            0x06 => Ok(RomType::RomBank2MByte),
            0x07 => Ok(RomType::RomBank4MByte),
            0x08 => Ok(RomType::RomBank8MByte),
            0x52 => Ok(RomType::RomBank1_1MByte),
            0x53 => Ok(RomType::RomBank1_2MByte),
            0x54 => Ok(RomType::RomBank1_5MByte),
            _ => Err(CoreError::UnknownRomType(value)),
        }
    }
}

/// External RAM size, from header byte 0x149.
#[derive(Debug, Clone, Copy, PartialEq, Eq, Structural)]
pub enum RamType {
    RamBankNoRam,
    RamBankUnused,
    RamBank8KByte,
    RamBank32KByte,
    RamBank128KByte,
    RamBank64KByte,
}

impl RamType {
    /// Number of 8 KiB RAM banks of each RAM size.
    pub open spec fn banks(self) -> usize {
        match self {
            RamType::RamBankNoRam => 0,
            RamType::RamBankUnused => 0,
            RamType::RamBank8KByte => 1,
            RamType::RamBank32KByte => 4,
            RamType::RamBank128KByte => 16,
            RamType::RamBank64KByte => 8,
        }
    }

    /// Number of bytes of external RAM that a cartridge of this size holds.
    pub open spec fn ram_bytes(self) -> nat {
        match self {
            RamType::RamBankNoRam => 0,
            RamType::RamBankUnused => 0,
            RamType::RamBank8KByte => 0x2000,
            RamType::RamBank32KByte => 0x8000,
            RamType::RamBank128KByte => 0x20000,
            RamType::RamBank64KByte => 0x10000,
        }
    }

    /// The header code of each RAM size.
    pub open spec fn code(self) -> u8 {
        match self {
            RamType::RamBankNoRam => 0x00,
            RamType::RamBankUnused => 0x01,
            RamType::RamBank8KByte => 0x02,
            RamType::RamBank32KByte => 0x03,
            RamType::RamBank128KByte => 0x04,
            RamType::RamBank64KByte => 0x05,
        }
    }

    /// Number of RAM banks.
    pub fn nb_bank(&self) -> (r: usize)
        ensures
            r == self.banks(),
    {
        match self {
            RamType::RamBankNoRam => 0,
            RamType::RamBankUnused => 0,
            RamType::RamBank8KByte => 1,
            RamType::RamBank32KByte => 4,
            RamType::RamBank128KByte => 16,
            RamType::RamBank64KByte => 8,
        }
    }

    /// RAM size in KiB, as the bank count times 8.
    pub fn memory_size(&self) -> (r: usize)
        ensures
            r == self.banks() * 8,
    {
        self.nb_bank() * 8
    }

    /// Decodes header byte 0x149.
    pub fn try_from(value: u8) -> (r: Result<RamType, CoreError>)
        ensures
            r is Ok <==> value <= 0x05,
            r matches Ok(t) ==> t.code() == value,
            r is Err ==> r == Err::<RamType, CoreError>(CoreError::UnknownRamType(value)),
    {
        match value {
            0x00 => Ok(RamType::RamBankNoRam),
            0x01 => Ok(RamType::RamBankUnused),
            0x02 => Ok(RamType::RamBank8KByte),
            0x03 => Ok(RamType::RamBank32KByte),
            0x04 => Ok(RamType::RamBank128KByte),
            0x05 => Ok(RamType::RamBank64KByte),
            _ => Err(CoreError::UnknownRamType(value)),
        }
    }
}

} // verus!
