use vstd::prelude::*;
use crate::bits::zeroed;
use crate::cartridge::{Cartridge, DynCartridge};
use crate::colors::Colors;
use crate::interrupt::Interrupt;
use crate::lcd::LCD;
use crate::memory::{HRAM, Unusable, WRAM};
use crate::oam::OAM;
use crate::vram::VRAM;

verus! {

/// Addresses owned by the cartridge: ROM 0x0000..=0x7FFF and external RAM 0xA000..=0xBFFF.
pub open spec fn is_cartridge_addr(addr: u16) -> bool {
    addr <= 0x7FFF || (0xA000 <= addr && addr <= 0xBFFF)
}

/// Addresses of work RAM (with its echo), high RAM and video RAM.
pub open spec fn is_ram_addr(addr: u16) -> bool {
    (0x8000 <= addr && addr <= 0x9FFF) || (0xC000 <= addr && addr <= 0xFDFF) || (0xFF80 <= addr
        && addr <= 0xFFFE)
}

/// The memory bus: decodes the 16-bit address space onto the cartridge, the RAMs, the
/// sprite table and the I/O registers.
pub struct MMU {
    pub cartridge: DynCartridge,
    pub hram: HRAM,
    pub wram: WRAM,
    pub unusable: Unusable,
    pub colors: Colors,
    pub oam: OAM,
    pub interrupt: Interrupt,
    pub lcd: LCD,
    pub vram: VRAM,
    /// Plain bytes for the I/O addresses 0xFF00..=0xFF7F that have no register of their own.
    pub io: Vec<u8>,
}

impl MMU {
    pub open spec fn wf(&self) -> bool {
        &&& self.cartridge.wf()
        &&& self.hram.wf()
        &&& self.wram.wf()
        &&& self.unusable.wf()
        &&& self.colors.wf()
        &&& self.oam.wf()
        &&& self.vram.wf()
        &&& self.io@.len() == 128
    }

    /// The byte that a read at `addr` returns.
    pub open spec fn read_spec(&self, addr: u16) -> u8 {
        if is_cartridge_addr(addr) {
            self.cartridge.read_spec(addr)
        } else if addr <= 0x9FFF {
            self.vram.bank_view(self.vram.cpu_bank())[addr - 0x8000]
        } else if addr <= 0xDFFF {
            self.wram.view()[addr - 0xC000]
        } else if addr <= 0xFDFF {
            self.wram.view()[addr - 0xE000]
        } else if addr <= 0xFE9F {
            self.oam.view()[addr - 0xFE00]
        } else if addr <= 0xFEFF {
            self.unusable.view()[addr - 0xFEA0]
        } else if addr == 0xFF0F {
            self.interrupt.ff0f_if
        } else if addr == 0xFF40 {
            self.lcd.ff40_lcdc
        } else if addr == 0xFF41 {
            self.lcd.ff41_stat
        } else if addr == 0xFF42 {
            self.lcd.ff42_scy
        } else if addr == 0xFF43 {
            self.lcd.ff43_scx
        } else if addr == 0xFF44 {
            self.lcd.ff44_ly
        } else if addr == 0xFF45 {
            self.lcd.ff45_lyc
        } else if addr == 0xFF46 {
            self.oam.dma_page()
        } else if addr == 0xFF47 {
            self.colors.ff47_bgp
        } else if addr == 0xFF48 {
            self.colors.ff48_obp0
        } else if addr == 0xFF49 {
            self.colors.ff49_obp1
        } else if addr == 0xFF4A {
            self.lcd.ff4a_wy
        } else if addr == 0xFF4B {
            self.lcd.ff4b_wx
        } else if addr == 0xFF4F {
            self.vram.ff4f_vbk
        } else if addr == 0xFF68 {
            self.colors.ff68_bcps_bgpi
        } else if addr == 0xFF69 {
            self.colors.palette_ram()[self.colors.ff68_bcps_bgpi as int % 64]
        } else if addr <= 0xFF7F {
            self.io@[addr - 0xFF00]
        } else if addr <= 0xFFFE {
            self.hram.view()[addr - 0xFF80]
        } else {
            self.interrupt.ffff_ie
        }
    }

    /// How a write of `v` at `addr` takes `old` to `new`: the one component that owns
    /// the address changes as its own write says, and nothing else changes.
    pub open spec fn write_post(old: MMU, new: MMU, addr: u16, v: u8) -> bool {
        if is_cartridge_addr(addr) {
            &&& new == (MMU { cartridge: new.cartridge, ..old })
            &&& new.cartridge.cart_type == old.cartridge.cart_type
            &&& new.cartridge.rom_type == old.cartridge.rom_type
            &&& new.cartridge.ram_type == old.cartridge.ram_type
            &&& Cartridge::write_post(old.cartridge.inner, new.cartridge.inner, addr, v)
        } else if addr <= 0x9FFF {
            &&& new == (MMU { vram: new.vram, ..old })
            &&& new.vram.wf()
            &&& new.vram.ff4f_vbk == old.vram.ff4f_vbk
            &&& new.vram.bank_view(old.vram.cpu_bank()) == old.vram.bank_view(
                old.vram.cpu_bank(),
            ).update(addr - 0x8000, v)
            &&& new.vram.bank_view(!old.vram.cpu_bank()) == old.vram.bank_view(!old.vram.cpu_bank())
        } else if addr <= 0xFDFF {
            &&& new == (MMU { wram: new.wram, ..old })
            &&& new.wram.view() == old.wram.view().update(
                if addr <= 0xDFFF { addr - 0xC000 } else { addr - 0xE000 },
                v,
            )
        } else if addr <= 0xFE9F {
            &&& new == (MMU { oam: new.oam, ..old })
            &&& new.oam.view() == old.oam.view().update(addr - 0xFE00, v)
            &&& new.oam.dma_page() == old.oam.dma_page()
            &&& new.oam.dma_transfer_requested == old.oam.dma_transfer_requested
        } else if addr <= 0xFEFF {
            &&& new == (MMU { unusable: new.unusable, ..old })
            &&& new.unusable.view() == old.unusable.view().update(addr - 0xFEA0, v)
        } else if addr == 0xFF0F {
            new == (MMU { interrupt: Interrupt { ff0f_if: v, ..old.interrupt }, ..old })
        } else if addr == 0xFF40 {
            new == (MMU { lcd: LCD { ff40_lcdc: v, ..old.lcd }, ..old })
        } else if addr == 0xFF41 {
            new == (MMU { lcd: LCD { ff41_stat: v, ..old.lcd }, ..old })
        } else if addr == 0xFF42 {
            new == (MMU { lcd: LCD { ff42_scy: v, ..old.lcd }, ..old })
        } else if addr == 0xFF43 {
            new == (MMU { lcd: LCD { ff43_scx: v, ..old.lcd }, ..old })
        } else if addr == 0xFF44 {
            new == (MMU { lcd: LCD { ff44_ly: v, ..old.lcd }, ..old })
        } else if addr == 0xFF45 {
            new == (MMU { lcd: LCD { ff45_lyc: v, ..old.lcd }, ..old })
        } else if addr == 0xFF46 {
            &&& new == (MMU { oam: new.oam, ..old })
            &&& new.oam.view() == old.oam.view()
            &&& new.oam.dma_page() == v
            &&& new.oam.dma_transfer_requested
        } else if addr == 0xFF47 {
            new == (MMU { colors: Colors { ff47_bgp: v, ..old.colors }, ..old })
        } else if addr == 0xFF48 {
            new == (MMU { colors: Colors { ff48_obp0: v, ..old.colors }, ..old })
        } else if addr == 0xFF49 {
            new == (MMU { colors: Colors { ff49_obp1: v, ..old.colors }, ..old })
        } else if addr == 0xFF4A {
            new == (MMU { lcd: LCD { ff4a_wy: v, ..old.lcd }, ..old })
        } else if addr == 0xFF4B {
            new == (MMU { lcd: LCD { ff4b_wx: v, ..old.lcd }, ..old })
        } else if addr == 0xFF4F {
            new == (MMU { vram: VRAM { ff4f_vbk: v, ..old.vram }, ..old })
        } else if addr == 0xFF68 {
            new == (MMU { colors: Colors { ff68_bcps_bgpi: v, ..old.colors }, ..old })
        } else if addr == 0xFF69 {
            &&& new == (MMU { colors: new.colors, ..old })
            &&& new.colors.wf()
            &&& new.colors.palette_ram() == old.colors.palette_ram().update(
                old.colors.ff68_bcps_bgpi as int % 64,
                v,
            )
            &&& new.colors.ff68_bcps_bgpi == if old.colors.ff68_bcps_bgpi >= 0x80 {
                (0x80 + (old.colors.ff68_bcps_bgpi as int % 64 + 1) % 64) as u8
            } else {
                old.colors.ff68_bcps_bgpi
            }
            &&& new.colors.ff47_bgp == old.colors.ff47_bgp
            &&& new.colors.ff48_obp0 == old.colors.ff48_obp0
            &&& new.colors.ff49_obp1 == old.colors.ff49_obp1
        } else if addr <= 0xFF7F {
            &&& new == (MMU { io: new.io, ..old })
            &&& new.io@ == old.io@.update(addr - 0xFF00, v)
        } else if addr <= 0xFFFE {
            &&& new == (MMU { hram: new.hram, ..old })
            &&& new.hram.view() == old.hram.view().update(addr - 0xFF80, v)
        } else {
            new == (MMU { interrupt: Interrupt { ffff_ie: v, ..old.interrupt }, ..old })
        }
    }

    /// A bus over `cartridge` with every RAM and register cleared.
    pub fn new(cartridge: DynCartridge) -> (r: MMU)
        requires
            cartridge.wf(),
        ensures
            r.wf(),
            r.cartridge == cartridge,
            !r.oam.dma_transfer_requested,
            r.interrupt.ff0f_if == 0 && r.interrupt.ffff_ie == 0,
            r.lcd == (LCD {
                ff40_lcdc: 0, ff41_stat: 0, ff42_scy: 0, ff43_scx: 0, ff44_ly: 0, ff45_lyc: 0,
                ff4a_wy: 0, ff4b_wx: 0,
            }),
            r.colors.ff47_bgp == 0 && r.colors.ff48_obp0 == 0 && r.colors.ff49_obp1 == 0
                && r.colors.ff68_bcps_bgpi == 0,
            r.vram.ff4f_vbk == 0,
            r.oam.dma_page() == 0,
            forall|i: int| 0 <= i < 128 ==> r.io@[i] == 0,
            forall|i: int| 0 <= i < 64 ==> r.colors.palette_ram()[i] == 0,
            forall|i: int| 0 <= i < 0x2000 ==> r.wram.view()[i] == 0,
            forall|i: int| 0 <= i < 127 ==> r.hram.view()[i] == 0,
            forall|i: int| 0 <= i < 160 ==> r.oam.view()[i] == 0,
            forall|i: int| 0 <= i < 0x2000 ==> r.vram.bank_view(false)[i] == 0 && r.vram.bank_view(true)[i] == 0,
    {
        MMU {
            cartridge,
            hram: HRAM::new(),
            wram: WRAM::new(),
            unusable: Unusable::new(),
            colors: Colors::new(),
            oam: OAM::new(),
            interrupt: Interrupt::new(),
            lcd: LCD::new(),
            vram: VRAM::new(),
            io: zeroed(128),
        }
    }

    pub fn read(&self, addr: u16) -> (r: u8)
        requires
            self.wf(),
        ensures
            r == self.read_spec(addr),
    {
        if addr <= 0x7FFF || (0xA000 <= addr && addr <= 0xBFFF) {
            self.cartridge.read(addr)
        } else if addr <= 0x9FFF {
            self.vram.read(addr)
        } else if addr <= 0xDFFF {
            self.wram.read(addr)
        } else if addr <= 0xFDFF {
            self.wram.read(addr - 0x2000)
        } else if addr <= 0xFE9F {
            self.oam.read(addr)
        } else if addr <= 0xFEFF {
            self.unusable.read(addr)
        } else if addr == 0xFF0F {
            self.interrupt.ff0f_if
        } else if addr == 0xFF40 {
            self.lcd.ff40_lcdc
        } else if addr == 0xFF41 {
            self.lcd.ff41_stat
        } else if addr == 0xFF42 {
            self.lcd.ff42_scy
        } else if addr == 0xFF43 {
            self.lcd.ff43_scx
        } else if addr == 0xFF44 {
            self.lcd.ff44_ly
        } else if addr == 0xFF45 {
            self.lcd.ff45_lyc
        } else if addr == 0xFF46 {
            self.oam.ff46_dma()
        } else if addr == 0xFF47 {
            self.colors.ff47_bgp
        } else if addr == 0xFF48 {
            self.colors.ff48_obp0
        } else if addr == 0xFF49 {
            self.colors.ff49_obp1
        } else if addr == 0xFF4A {
            self.lcd.ff4a_wy
        } else if addr == 0xFF4B {
            self.lcd.ff4b_wx
        } else if addr == 0xFF4F {
            self.vram.ff4f_vbk
        } else if addr == 0xFF68 {
            self.colors.ff68_bcps_bgpi
        } else if addr == 0xFF69 {
            self.colors.ff69_bcpd_bgpd()
        } else if addr <= 0xFF7F {
            self.io[(addr - 0xFF00) as usize]
        } else if addr <= 0xFFFE {
            self.hram.read(addr)
        } else {
            self.interrupt.ffff_ie
        }
    }

    /// Writes `value` at `addr`. Outside the cartridge, a read at the same address then
    /// returns `value`, except for BCPD (0xFF69) with auto-increment on, where the index
    /// has moved on.
    pub fn write(&mut self, addr: u16, value: u8)
        requires
            old(self).wf(),
        ensures
            final(self).wf(),
            MMU::write_post(*old(self), *final(self), addr, value),
            !is_cartridge_addr(addr) && !(addr == 0xFF69 && old(self).colors.ff68_bcps_bgpi >= 0x80)
                ==> final(self).read_spec(addr) == value,
    {
        if addr <= 0x7FFF || (0xA000 <= addr && addr <= 0xBFFF) {
            self.cartridge.write(addr, value);
        } else if addr <= 0x9FFF {
            self.vram.write(addr, value);
        } else if addr <= 0xDFFF {
            self.wram.write(addr, value);
        } else if addr <= 0xFDFF {
            self.wram.write(addr - 0x2000, value);
        } else if addr <= 0xFE9F {
            self.oam.write(addr, value);
        } else if addr <= 0xFEFF {
            self.unusable.write(addr, value);
        } else if addr == 0xFF0F {
            self.interrupt.ff0f_if = value;
        } else if addr == 0xFF40 {
            self.lcd.ff40_lcdc = value;
        } else if addr == 0xFF41 {
            self.lcd.ff41_stat = value;
        } else if addr == 0xFF42 {
            self.lcd.ff42_scy = value;
        } else if addr == 0xFF43 {
            self.lcd.ff43_scx = value;
        } else if addr == 0xFF44 {
            self.lcd.ff44_ly = value;
        } else if addr == 0xFF45 {
            self.lcd.ff45_lyc = value;
        } else if addr == 0xFF46 {
            self.oam.set_ff46_dma(value);
        } else if addr == 0xFF47 {
            self.colors.ff47_bgp = value;
        } else if addr == 0xFF48 {
            self.colors.ff48_obp0 = value;
        } else if addr == 0xFF49 {
            self.colors.ff49_obp1 = value;
        } else if addr == 0xFF4A {
            self.lcd.ff4a_wy = value;
        } else if addr == 0xFF4B {
            self.lcd.ff4b_wx = value;
        } else if addr == 0xFF4F {
            self.vram.ff4f_vbk = value;
        } else if addr == 0xFF68 {
            self.colors.ff68_bcps_bgpi = value;
        } else if addr == 0xFF69 {
            self.colors.set_ff69_bcpd_bgpd(value);
        } else if addr <= 0xFF7F {
            self.io.set((addr - 0xFF00) as usize, value);
        } else if addr <= 0xFFFE {
            self.hram.write(addr, value);
        } else {
            self.interrupt.ffff_ie = value;
        }
    }
}

/// Writing a byte to work RAM, high RAM or video RAM and reading it back at the same
/// address gives the byte written.
pub proof fn lemma_ram_round_trip(old: MMU, new: MMU, addr: u16, v: u8)
    requires
        old.wf(),
        is_ram_addr(addr),
        MMU::write_post(old, new, addr, v),
    ensures
        new.read_spec(addr) == v,
{
}

/// A write at `b` leaves the RAM byte at `a` alone: `b` is neither `a` nor its work RAM
/// echo, and not VBK when `a` is in video RAM.
pub open spec fn leaves_ram_byte(a: u16, b: u16) -> bool {
    &&& b != a
    &&& b as int != a as int + 0x2000
    &&& a as int != b as int + 0x2000
    &&& !(0x8000 <= a <= 0x9FFF && b == 0xFF4F)
}

/// A write anywhere that leaves the RAM byte at `y` alone keeps what a read there gives.
pub proof fn lemma_other_write_frame(old: MMU, new: MMU, x: u16, v: u8, y: u16)
    requires
        old.wf(),
        is_ram_addr(y),
        leaves_ram_byte(y, x),
        MMU::write_post(old, new, x, v),
    ensures
        new.read_spec(y) == old.read_spec(y),
{
}

/// Bus states `ms` that the writes `ws` lead through, one write per step.
pub open spec fn write_run(ms: Seq<MMU>, ws: Seq<(u16, u8)>) -> bool {
    &&& ms.len() == ws.len() + 1
    &&& forall|i: int| 0 <= i < ms.len() ==> (#[trigger] ms[i]).wf()
    &&& forall|i: int| 0 <= i < ws.len() ==> #[trigger] MMU::write_post(ms[i], ms[i + 1], ws[i].0, ws[i].1)
}

/// A byte written to work RAM, high RAM or video RAM reads back after any run of
/// writes that leave it alone, also through the work RAM echo.
pub proof fn lemma_ram_survives_writes(ms: Seq<MMU>, ws: Seq<(u16, u8)>, a: u16, v: u8)
    requires
        write_run(ms, ws),
        is_ram_addr(a),
        ms[0].read_spec(a) == v,
        forall|i: int| 0 <= i < ws.len() ==> leaves_ram_byte(a, #[trigger] ws[i].0),
    ensures
        ms.last().read_spec(a) == v,
        0xC000 <= a <= 0xDDFF ==> ms.last().read_spec((a + 0x2000) as u16) == v,
    decreases ws.len(),
{
    if ws.len() > 0 {
        let n = ws.len() - 1;
        let ms0 = ms.drop_last();
        let ws0 = ws.drop_last();
        assert(write_run(ms0, ws0)) by {
            assert forall|i: int| 0 <= i < ws0.len() implies #[trigger] MMU::write_post(
                ms0[i],
                ms0[i + 1],
                ws0[i].0,
                ws0[i].1,
            ) by {
                assert(ms0[i] == ms[i] && ms0[i + 1] == ms[i + 1] && ws0[i] == ws[i]);
                assert(MMU::write_post(ms[i], ms[i + 1], ws[i].0, ws[i].1));
            }
            assert forall|i: int| 0 <= i < ms0.len() implies (#[trigger] ms0[i]).wf() by {
                assert(ms0[i] == ms[i] && ms[i].wf());
            }
        }
        assert forall|i: int| 0 <= i < ws0.len() implies leaves_ram_byte(a, #[trigger] ws0[i].0) by {
            assert(ws0[i] == ws[i]);
            assert(leaves_ram_byte(a, ws[i].0));
        }
        lemma_ram_survives_writes(ms0, ws0, a, v);
        assert(ms[n].wf());
        assert(MMU::write_post(ms[n], ms[n + 1], ws[n].0, ws[n].1));
        assert(leaves_ram_byte(a, ws[n].0));
        lemma_other_write_frame(ms[n], ms[n + 1], ws[n].0, ws[n].1, a);
    }
}

} // verus!
