use gbcore::cartridge::{Cartridge, DynCartridge};
use gbcore::error::CoreError;
use gbcore::header::{CartridgeType, RamType, RomType};
use gbcore::mbc1::MBC1;
use gbcore::mbc5::MBC5;
use gbcore::rom_only::RomOnly;

fn rom_image(cart: u8, rom_code: u8, ram_code: u8, size: usize) -> Vec<u8> {
    let mut rom = vec![0u8; size];
    for (i, b) in rom.iter_mut().enumerate() {
        // Each byte tells its 16 KiB bank and its offset.
        *b = ((i / 0x4000) as u8).wrapping_mul(16).wrapping_add((i % 16) as u8);
    }
    rom[0x147] = cart;
    rom[0x148] = rom_code;
    rom[0x149] = ram_code;
    rom
}

#[test]
fn header_codes_decode() {
    assert_eq!(CartridgeType::try_from(0x00), Ok(CartridgeType::ROMOnly));
    assert_eq!(CartridgeType::try_from(0x1B), Ok(CartridgeType::MBC5RamBattery));
    assert_eq!(CartridgeType::try_from(0xFF), Ok(CartridgeType::HuC1RamBattery));
    assert_eq!(CartridgeType::try_from(0x04), Err(CoreError::UnknownCartridgeType(0x04)));
    assert_eq!(RomType::try_from(0x54), Ok(RomType::RomBank1_5MByte));
    assert_eq!(RomType::try_from(0x09), Err(CoreError::UnknownRomType(0x09)));
    assert_eq!(RamType::try_from(0x05), Ok(RamType::RamBank64KByte));
    assert_eq!(RamType::try_from(0x06), Err(CoreError::UnknownRamType(0x06)));
}

#[test]
fn rom_and_ram_sizes() {
    assert_eq!(RomType::RomBank32KByte.nb_bank(), 2);
    assert_eq!(RomType::RomBank8MByte.nb_bank(), 512);
    assert_eq!(RomType::RomBank1_1MByte.nb_bank(), 72);
    assert_eq!(RomType::RomBank512KByte.memory_size(), 512);
    assert_eq!(RomType::RomBank1MByte.memory_size(), 1024);
    assert_eq!(RamType::RamBankNoRam.nb_bank(), 0);
    assert_eq!(RamType::RamBank32KByte.nb_bank(), 4);
    assert_eq!(RamType::RamBank128KByte.memory_size(), 128);
    assert_eq!(RamType::RamBank8KByte.memory_size(), 8);
    assert_eq!(RamType::RamBank64KByte.nb_bank(), 8);
    assert_eq!(RamType::RamBank64KByte.memory_size(), 64);
}

#[test]
fn constructor_errors() {
    let e = |cart: u8, rom: u8, ram: u8| DynCartridge::new(rom_image(cart, rom, ram, 0x8000)).err();
    assert_eq!(e(0x04, 0x00, 0x00), Some(CoreError::UnknownCartridgeType(0x04)));
    assert_eq!(e(0x00, 0x09, 0x00), Some(CoreError::UnknownRomType(0x09)));
    assert_eq!(e(0x00, 0x00, 0x06), Some(CoreError::UnknownRamType(0x06)));
    assert_eq!(e(0x01, 0x00, 0x01), Some(CoreError::UnsupportedRamType(0x01)));
    assert_eq!(e(0x05, 0x00, 0x00), Some(CoreError::UnsupportedCartridgeType(0x05)));
    assert_eq!(e(0x11, 0x00, 0x02), Some(CoreError::UnsupportedCartridgeType(0x11)));
    // The type byte is checked before the size bytes.
    assert_eq!(e(0x04, 0x09, 0x06), Some(CoreError::UnknownCartridgeType(0x04)));
}

#[test]
fn constructor_builds_the_named_controller() {
    let c = DynCartridge::new(rom_image(0x00, 0x00, 0x00, 0x8000)).ok().unwrap();
    assert!(matches!(c.inner, Cartridge::RomOnly(_)));
    assert_eq!(c.cart_type, CartridgeType::ROMOnly);
    let c = DynCartridge::new(rom_image(0x03, 0x01, 0x02, 0x10000)).ok().unwrap();
    assert!(matches!(c.inner, Cartridge::Mbc1(_)));
    assert_eq!(c.rom_type, RomType::RomBank64KByte);
    assert_eq!(c.ram_type, RamType::RamBank8KByte);
    let c = DynCartridge::new(rom_image(0x1B, 0x01, 0x03, 0x10000)).ok().unwrap();
    assert!(matches!(c.inner, Cartridge::Mbc5(_)));
}

#[test]
fn rom_only_reads_rom_and_ignores_writes() {
    let rom = rom_image(0x00, 0x00, 0x00, 0x8000);
    let mut c = RomOnly::new(rom.clone());
    assert_eq!(c.read(0x0150), rom[0x0150]);
    assert_eq!(c.read(0x7FFF), rom[0x7FFF]);
    c.write(0x2000, 5);
    assert_eq!(c.read(0x4000), rom[0x4000]);
    // No external RAM is fitted.
    assert_eq!(c.read(0xA000), 0xFF);
}

#[test]
fn mbc1_selects_rom_bank() {
    let rom = rom_image(0x01, 0x01, 0x00, 0x10000);
    let mut c = DynCartridge::new(rom.clone()).ok().unwrap();
    assert_eq!(c.read(0x4000), rom[0x4000]);
    c.write(0x2000, 2);
    assert_eq!(c.read(0x4000), rom[0x8000]);
    assert_eq!(c.read(0x4003), rom[0x8003]);
    c.write(0x2000, 3);
    assert_eq!(c.read(0x7FFF), rom[0xFFFF]);
    // Bank 0 is remapped to bank 1.
    c.write(0x2000, 0);
    assert_eq!(c.read(0x4000), rom[0x4000]);
    // Only five bits are kept: 0x22 selects bank 2.
    c.write(0x2000, 0x22);
    assert_eq!(c.read(0x4000), rom[0x8000]);
    // Bank 0 stays at 0x0000.
    assert_eq!(c.read(0x0001), rom[0x0001]);
}

#[test]
fn mbc1_upper_bits_and_mode() {
    // 1 MiB ROM: large, so the mode bit can be written.
    let rom = rom_image(0x01, 0x05, 0x00, 0x100000);
    let mut m = MBC1::new(vec![], rom.clone(), true);
    m.write(0x2000, 1);
    m.write(0x4000, 1);
    // Mode 0: high area shows bank 32 + 1, low area bank 0.
    assert_eq!(m.read(0x4000), rom[33 * 0x4000]);
    assert_eq!(m.read(0x0000), rom[0]);
    // Mode 1: low area shows bank 32, high area bank 1.
    m.write(0x6000, 1);
    assert_eq!(m.read(0x0000), rom[32 * 0x4000]);
    assert_eq!(m.read(0x4000), rom[0x4000]);
    // A small cartridge ignores the mode write.
    let mut s = MBC1::new(vec![], rom.clone(), false);
    s.write(0x4000, 1);
    s.write(0x6000, 1);
    assert_eq!(s.read(0x0000), rom[0]);
    assert_eq!(s.read(0x4000), rom[33 * 0x4000]);
}

#[test]
fn mbc1_ram_enable_gate() {
    let rom = rom_image(0x03, 0x00, 0x02, 0x8000);
    let mut m = MBC1::new(vec![0u8; 0x2000], rom, false);
    assert_eq!(m.read(0xA000), 0x00);
    m.write(0xA000, 0x55);
    m.write(0x0000, 0x0A);
    assert_eq!(m.read(0xA000), 0x00);
    m.write(0xA000, 0x55);
    assert_eq!(m.read(0xA000), 0x55);
    // Only the low nibble counts: 0x1A enables, 0x0B disables.
    m.write(0x0000, 0x0B);
    assert_eq!(m.read(0xA000), 0x00);
    m.write(0x1FFF, 0x1A);
    assert_eq!(m.read(0xA000), 0x55);
}

#[test]
fn mbc5_nine_bit_bank_and_ram_bank() {
    let rom = rom_image(0x1B, 0x08, 0x03, 0x800000);
    let mut m = MBC5::new(vec![0u8; 0x8000], rom.clone());
    // Bank 0 can be mapped at 0x4000.
    assert_eq!(m.read(0x4000), rom[0]);
    m.write(0x2000, 0x05);
    assert_eq!(m.read(0x4000), rom[5 * 0x4000]);
    m.write(0x3000, 0x01);
    assert_eq!(m.read(0x4001), rom[0x105 * 0x4000 + 1]);
    m.write(0x2000, 0x00);
    assert_eq!(m.read(0x4000), rom[0x100 * 0x4000]);
    m.write(0x3000, 0x00);
    assert_eq!(m.read(0x4000), rom[0]);
    m.write(0x0000, 0x0A);
    m.write(0x4000, 0x12);
    m.write(0xA001, 0x77);
    m.write(0x4000, 0x00);
    assert_eq!(m.read(0xA001), 0x00);
    m.write(0x4000, 0x02);
    assert_eq!(m.read(0xA001), 0x77);
    // 0x0000..=0x3FFF is always bank 0.
    assert_eq!(m.read(0x0005), rom[5]);
}

#[test]
fn mbc1_bank_ranges_on_examples() {
    let rom = rom_image(0x01, 0x06, 0x00, 0x200000);
    let mut m = MBC1::new(vec![], rom.clone(), true);
    for upper in 0..4u8 {
        for reg in 0..32u8 {
            for mode in 0..2u8 {
                m.write(0x4000, upper);
                m.write(0x2000, reg);
                m.write(0x6000, mode);
                let low_bank = if mode == 1 { upper as usize * 32 } else { 0 };
                assert!([0usize, 32, 64, 96].contains(&low_bank));
                assert_eq!(m.read(0x0000), rom[low_bank * 0x4000]);
                let high = if mode == 1 { reg.max(1) as usize } else { upper as usize * 32 + reg.max(1) as usize };
                assert_ne!(high, 0);
                assert_eq!(m.read(0x4000), rom[high * 0x4000]);
            }
        }
    }
}
