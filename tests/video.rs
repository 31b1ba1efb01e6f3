use gbcore::cartridge::DynCartridge;
use gbcore::colors::{Colors, Palette};
use gbcore::gpu::{GPU, State};
use gbcore::lcd::Mode;
use gbcore::mmu::MMU;
use gbcore::system::Joypad;
use gbcore::timers::Timers;
use gbcore::{Screen, System, KEY_DOWN, KEY_START};

fn rom_with(program: &[u8]) -> Vec<u8> {
    let mut rom = vec![0u8; 0x8000];
    rom[0x100..0x100 + program.len()].copy_from_slice(program);
    rom
}

fn bus() -> MMU {
    MMU::new(DynCartridge::new(rom_with(&[])).ok().unwrap())
}

#[test]
fn mono_palette_shades() {
    let p = Palette::new_mono_palette(0xE4);
    assert_eq!(p.color(0), (0xED, 0xED, 0xED));
    assert_eq!(p.color(1), (0x99, 0x99, 0x99));
    assert_eq!(p.color(2), (0x66, 0x66, 0x66));
    assert_eq!(p.color(3), (0x21, 0x21, 0x21));
    let q = Palette::new_mono_palette(0x1B);
    assert_eq!(q.color(0), (0x21, 0x21, 0x21));
    assert_eq!(q.color(3), (0xED, 0xED, 0xED));
}

#[test]
fn cgb_palette_from_rgb555() {
    let mut c = Colors::new();
    c.ff68_bcps_bgpi = 0x80 | 8;
    for b in [0x1Fu8, 0x00, 0x00, 0x00, 0xFF, 0x7F, 0xE0, 0x03].iter() {
        c.set_ff69_bcpd_bgpd(*b);
    }
    let p = c.cgb_bgp_palette(1);
    assert_eq!(p.color(0), (0xF8, 0x00, 0x00));
    // Black stands for colour 0.
    assert_eq!(p.color(1), (0xED, 0xED, 0xED));
    assert_eq!(p.color(2), (0xF8, 0xF8, 0xF8));
    assert_eq!(p.color(3), (0x00, 0xF8, 0x00));
}

#[test]
fn ppu_mode_sequence_and_stat() {
    let mut mmu = bus();
    mmu.write(0xFF40, 0x80);
    let mut gpu = GPU::new(false);
    let mut modes = vec![gpu.current_mode];
    let mut cycles = 0u32;
    while modes.len() < 5 {
        gpu.tick(&mut mmu, 4);
        cycles += 4;
        if *modes.last().unwrap() != gpu.current_mode {
            modes.push(gpu.current_mode);
            assert_eq!(mmu.read(0xFF41) & 0b11, gpu.current_mode.to_u8());
        }
    }
    assert_eq!(modes, vec![Mode::HBlank, Mode::SearchOAM, Mode::ReadOAM, Mode::HBlank, Mode::SearchOAM]);
    assert_eq!(mmu.read(0xFF44), 2);
    // Each mode ends on the first step past its length and hands its overshoot to the
    // next: 208 + 80 + 172 + 204.
    assert_eq!(cycles, 664);
}

#[test]
fn frame_and_vblank_interrupt() {
    let mut mmu = bus();
    mmu.write(0xFF40, 0x80);
    let mut gpu = GPU::new(false);
    let mut steps = 0;
    loop {
        steps += 1;
        if gpu.tick(&mut mmu, 4) == State::Frame {
            break;
        }
    }
    assert_eq!(gpu.current_mode, Mode::VBlank);
    assert_eq!(mmu.read(0xFF44), 144);
    assert_eq!(mmu.read(0xFF0F) & 1, 1);
    assert!(steps > 143 * 456 / 4);
    // V-Blank counts LY up to 153, then line 0 starts again.
    let mut max_ly = 0;
    while gpu.current_mode == Mode::VBlank {
        gpu.tick(&mut mmu, 4);
        max_ly = max_ly.max(mmu.read(0xFF44));
    }
    assert_eq!(max_ly, 153);
    assert_eq!(mmu.read(0xFF44), 0);
    assert_eq!(gpu.current_mode, Mode::SearchOAM);
}

#[test]
fn lines_take_456_and_frames_70224_cycles() {
    let mut mmu = bus();
    mmu.write(0xFF40, 0x80);
    let mut gpu = GPU::new(false);
    let mut cycles = 0u64;
    let mut ly = mmu.read(0xFF44);
    let mut ly_changes = vec![];
    let mut frames = vec![];
    while frames.len() < 3 {
        if gpu.tick(&mut mmu, 4) == State::Frame {
            frames.push(cycles);
        }
        cycles += 4;
        let now = mmu.read(0xFF44);
        if now != ly {
            ly_changes.push((cycles, now));
            ly = now;
        }
    }
    assert_eq!(frames[1] - frames[0], 70224);
    assert_eq!(frames[2] - frames[1], 70224);
    let steady: Vec<_> = ly_changes.iter().filter(|(c, _)| *c > frames[0]).collect();
    for w in steady.windows(2) {
        assert_eq!(w[1].0 - w[0].0, 456, "LY {} -> {}", w[0].1, w[1].1);
        assert_eq!(w[1].1, if w[0].1 == 153 { 0 } else { w[0].1 + 1 });
    }
}

#[test]
fn cgb_window_uses_bgp() {
    let mut mmu = bus();
    let mut gpu = GPU::new(true);
    // Tile 0, row 0: colour 1; CGB palette 0 colour 1 is pure red.
    mmu.write(0x8000, 0xFF);
    mmu.write(0xFF68, 0x80 | 2);
    mmu.write(0xFF69, 0x1F);
    mmu.write(0xFF69, 0x00);
    mmu.write(0xFF47, 0xE4);
    // LCD on, window on (map 0x9800), background off, WX = 7, WY = 0.
    mmu.write(0xFF40, 0x80 | 0x20 | 0x10);
    mmu.write(0xFF4B, 7);
    let mut screen = Screen::default();
    let mut frames = 0;
    while frames < 2 {
        if gpu.tick(&mut mmu, 4) == State::Frame {
            frames += 1;
        }
    }
    gpu.swap_screen(&mut screen);
    assert_eq!(&screen.frame_buffer[0..3], &[0x99, 0x99, 0x99]);
    // The background, in colour mode, does use the tile's CGB palette.
    mmu.write(0xFF40, 0x80 | 0x10 | 0x01);
    let mut frames = 0;
    while frames < 2 {
        if gpu.tick(&mut mmu, 4) == State::Frame {
            frames += 1;
        }
    }
    gpu.swap_screen(&mut screen);
    assert_eq!(&screen.frame_buffer[0..3], &[0xF8, 0x00, 0x00]);
}

#[test]
fn lyc_coincidence_requests_stat_interrupt() {
    let mut mmu = bus();
    mmu.write(0xFF40, 0x80);
    mmu.write(0xFF45, 1);
    mmu.write(0xFF41, 0x40);
    let mut gpu = GPU::new(false);
    gpu.tick(&mut mmu, 4);
    assert_eq!(mmu.read(0xFF41) & 0b100, 0);
    assert_eq!(mmu.read(0xFF0F) & 0b10, 0);
    while mmu.read(0xFF44) != 1 {
        gpu.tick(&mut mmu, 4);
    }
    assert_eq!(mmu.read(0xFF41) & 0b100, 0b100);
    assert_eq!(mmu.read(0xFF0F) & 0b10, 0b10);
}

#[test]
fn disabled_lcd_still_paces_frames() {
    let mut mmu = bus();
    let mut gpu = GPU::new(false);
    let mut cycles = 0u32;
    while gpu.tick(&mut mmu, 4) != State::Frame {
        cycles += 4;
    }
    assert_eq!(cycles, 70224);
    assert_eq!(mmu.read(0xFF44), 0);
}

#[test]
fn background_and_sprite_pixels() {
    // HALT forever.
    let mut sys = System::new(DynCartridge::new(rom_with(&[0x76])).ok().unwrap());
    // Tile 0, row 0: colour 1 everywhere. Tile 1, row 0: colour 3.
    sys.mmu.write(0x8000, 0xFF);
    sys.mmu.write(0x8010, 0xFF);
    sys.mmu.write(0x8011, 0xFF);
    // Sprite 0 at the top-left corner, tile 1, palette OBP0.
    sys.mmu.write(0xFE00, 16);
    sys.mmu.write(0xFE01, 8);
    sys.mmu.write(0xFE02, 1);
    sys.mmu.write(0xFE03, 0);
    sys.mmu.write(0xFF47, 0xE4);
    sys.mmu.write(0xFF48, 0xE4);
    sys.mmu.write(0xFF40, 0x93);
    let mut screen = Screen::default();
    sys.tick(&mut screen, &0);
    sys.tick(&mut screen, &0);
    let px = |s: &Screen, x: usize, y: usize| {
        let i = (y * 160 + x) * 3;
        (s.frame_buffer[i], s.frame_buffer[i + 1], s.frame_buffer[i + 2])
    };
    assert_eq!(px(&screen, 0, 0), (0x21, 0x21, 0x21));
    assert_eq!(px(&screen, 7, 0), (0x21, 0x21, 0x21));
    assert_eq!(px(&screen, 8, 0), (0x99, 0x99, 0x99));
    assert_eq!(px(&screen, 100, 8), (0x99, 0x99, 0x99));
    assert_eq!(px(&screen, 0, 1), (0xED, 0xED, 0xED));
    assert_eq!(px(&screen, 159, 143), (0xED, 0xED, 0xED));
}

#[test]
fn scroll_moves_background() {
    let mut sys = System::new(DynCartridge::new(rom_with(&[0x76])).ok().unwrap());
    sys.mmu.write(0x8000, 0xFF);
    sys.mmu.write(0xFF47, 0xE4);
    // SCY = 1: screen row 7 shows tile row 0.
    sys.mmu.write(0xFF42, 1);
    let mut screen = Screen::default();
    sys.tick(&mut screen, &0);
    sys.tick(&mut screen, &0);
    let i = (7 * 160 + 3) * 3;
    assert_eq!(screen.frame_buffer[i], 0x99);
    assert_eq!(screen.frame_buffer[3 * 3], 0xED);
}

#[test]
fn timers_count() {
    let mut mmu = bus();
    let mut timers = Timers::new();
    for _ in 0..64 {
        timers.tick(&mut mmu, 4);
    }
    assert_eq!(mmu.read(0xFF04), 1);
    // Timer on, 16 T-cycles per increment.
    mmu.write(0xFF07, 0x05);
    mmu.write(0xFF05, 0xFE);
    mmu.write(0xFF06, 0x42);
    for _ in 0..4 {
        timers.tick(&mut mmu, 4);
    }
    assert_eq!(mmu.read(0xFF05), 0xFF);
    assert_eq!(mmu.read(0xFF0F) & 0b100, 0);
    for _ in 0..4 {
        timers.tick(&mut mmu, 4);
    }
    assert_eq!(mmu.read(0xFF05), 0x42);
    assert_eq!(mmu.read(0xFF0F) & 0b100, 0b100);
    // Timer off: TIMA holds.
    mmu.write(0xFF07, 0x01);
    for _ in 0..16 {
        timers.tick(&mut mmu, 4);
    }
    assert_eq!(mmu.read(0xFF05), 0x42);
}

#[test]
fn tima_keeps_its_rate_over_long_steps() {
    let mut mmu = bus();
    let mut timers = Timers::new();
    mmu.write(0xFF07, 0x05);
    timers.tick(&mut mmu, 24);
    timers.tick(&mut mmu, 24);
    // 48 T-cycles at 16 per increment.
    assert_eq!(mmu.read(0xFF05), 3);
    // Several overflows in one step: each reloads TMA.
    mmu.write(0xFF05, 0xFE);
    mmu.write(0xFF06, 0xF0);
    timers.tick(&mut mmu, 64);
    assert_eq!(mmu.read(0xFF05), 0xF2);
    assert_eq!(mmu.read(0xFF0F) & 0b100, 0b100);
}

#[test]
fn joypad_start_press() {
    let mut mmu = bus();
    let mut pad = Joypad::new();
    pad.handle_keys(&mut mmu, &0);
    assert_eq!(mmu.read(0xFF0F) & 0x10, 0);
    pad.handle_keys(&mut mmu, &KEY_START);
    assert_eq!(mmu.read(0xFF0F) & 0x10, 0x10);
    mmu.write(0xFF00, 0x10);
    pad.tick(&mut mmu);
    // Buttons row selected; START (bit 3) reads 0, the rest 1.
    assert_eq!(mmu.read(0xFF00), 0x17);
    assert_eq!(mmu.read(0xFF00) & 0x0F, 0x07);
    mmu.write(0xFF00, 0x20);
    pad.tick(&mut mmu);
    assert_eq!(mmu.read(0xFF00), 0x2F);
    mmu.write(0xFF00, 0x30);
    pad.tick(&mut mmu);
    assert_eq!(mmu.read(0xFF00), 0x3F);
    // Releasing raises nothing.
    mmu.write(0xFF0F, 0);
    pad.handle_keys(&mut mmu, &0);
    assert_eq!(mmu.read(0xFF0F), 0);
    // An arrow press does.
    pad.handle_keys(&mut mmu, &KEY_DOWN);
    assert_eq!(mmu.read(0xFF0F), 0x10);
    mmu.write(0xFF00, 0x20);
    pad.tick(&mut mmu);
    assert_eq!(mmu.read(0xFF00), 0x27);
}
