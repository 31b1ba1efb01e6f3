use gbcore::cartridge::DynCartridge;
use gbcore::dma::OamDmaManager;
use gbcore::mmu::MMU;

fn bus() -> MMU {
    let mut rom = vec![0u8; 0x8000];
    rom[0x147] = 0x00;
    MMU::new(DynCartridge::new(rom).ok().unwrap())
}

#[test]
fn ram_write_then_read() {
    let mut m = bus();
    for (i, addr) in [0x8000u16, 0x9FFF, 0xC000, 0xCFFF, 0xD000, 0xDFFF, 0xFF80, 0xFFFE].iter().enumerate() {
        let v = 0x11u8.wrapping_mul(i as u8 + 1);
        m.write(*addr, v);
        assert_eq!(m.read(*addr), v);
    }
}

#[test]
fn non_cartridge_write_then_read() {
    let mut m = bus();
    let addrs = [0xE000u16, 0xFDFF, 0xFE00, 0xFE9F, 0xFEA0, 0xFEFF, 0xFF00, 0xFF0F, 0xFF40, 0xFF41, 0xFF44, 0xFF46, 0xFF47, 0xFF4F, 0xFF68, 0xFF7F, 0xFFFF];
    for addr in addrs.iter() {
        m.write(*addr, 0x5A);
        assert_eq!(m.read(*addr), 0x5A, "address {:#06x}", addr);
    }
}

#[test]
fn echo_ram_aliases_work_ram() {
    let mut m = bus();
    m.write(0xC123, 0x42);
    assert_eq!(m.read(0xE123), 0x42);
    m.write(0xFDFF, 0x24);
    assert_eq!(m.read(0xDDFF), 0x24);
}

#[test]
fn vram_bank_select() {
    let mut m = bus();
    m.write(0x8000, 1);
    m.write(0xFF4F, 1);
    assert_eq!(m.read(0x8000), 0);
    m.write(0x8000, 2);
    assert_eq!(m.read(0x8000), 2);
    m.write(0xFF4F, 0);
    assert_eq!(m.read(0x8000), 1);
}

#[test]
fn bcpd_auto_increment() {
    let mut m = bus();
    m.write(0xFF68, 0x80 | 63);
    m.write(0xFF69, 0xAB);
    // The index wrapped to 0 and bit 7 stays set.
    assert_eq!(m.read(0xFF68), 0x80);
    m.write(0xFF69, 0xCD);
    assert_eq!(m.read(0xFF68), 0x81);
    m.write(0xFF68, 63);
    assert_eq!(m.read(0xFF69), 0xAB);
    m.write(0xFF68, 0);
    assert_eq!(m.read(0xFF69), 0xCD);
    // Without auto-increment the index stays.
    m.write(0xFF69, 0xEE);
    assert_eq!(m.read(0xFF68), 0);
    assert_eq!(m.read(0xFF69), 0xEE);
}

#[test]
fn writes_to_rom_do_not_stick() {
    let mut m = bus();
    m.write(0x0200, 0x99);
    assert_eq!(m.read(0x0200), 0);
}

#[test]
fn oam_dma_copies_gradient() {
    let mut m = bus();
    for i in 0..160u16 {
        m.write(0xC000 + i, i as u8);
    }
    m.write(0xFF46, 0xC0);
    assert!(m.oam.dma_transfer_requested);
    assert_eq!(m.read(0xFF46), 0xC0);
    let mut dma = OamDmaManager::new();
    dma.tick(&mut m);
    assert!(!m.oam.dma_transfer_requested);
    for i in 0..160u16 {
        assert_eq!(m.read(0xFE00 + i), i as u8);
    }
    let s = m.oam.sprite(1);
    assert_eq!((s.y_pos, s.x_pos, s.tile_number, s.flags), (4, 5, 6, 7));
}

#[test]
fn oam_dma_waits_for_the_register_write() {
    let mut m = bus();
    m.write(0xC000, 0x77);
    let mut dma = OamDmaManager::new();
    dma.tick(&mut m);
    assert_eq!(m.read(0xFE00), 0);
    m.write(0xFF46, 0xC0);
    dma.tick(&mut m);
    assert_eq!(m.read(0xFE00), 0x77);
    // Once done, nothing more is copied.
    m.write(0xC000, 0x78);
    dma.tick(&mut m);
    assert_eq!(m.read(0xFE00), 0x77);
}
