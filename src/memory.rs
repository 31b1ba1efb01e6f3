use vstd::prelude::*;
use crate::bits::zeroed;

verus! {

/// High RAM, 0xFF80..=0xFFFE.
pub struct HRAM {
    mem: Vec<u8>,
}

/// The unusable area 0xFEA0..=0xFEFF, kept as plain bytes.
pub struct Unusable {
    mem: Vec<u8>,
}

/// Work RAM, 0xC000..=0xDFFF (bank 0, then bank 1).
pub struct WRAM {
    mem: Vec<u8>,
}

impl HRAM {
    pub closed spec fn view(&self) -> Seq<u8> {
        self.mem@
    }

    pub open spec fn wf(&self) -> bool {
        self.view().len() == 127
    }

    pub fn new() -> (r: Self)
        ensures
            r.wf(),
            forall|i: int| 0 <= i < 127 ==> r.view()[i] == 0,
    {
        HRAM { mem: zeroed(127) }
    }

    pub fn read(&self, addr: u16) -> (r: u8)
        requires
            self.wf(),
            0xFF80 <= addr <= 0xFFFE,
        ensures
            r == self.view()[addr - 0xFF80],
    {
        self.mem[(addr - 0xFF80) as usize]
    }

    pub fn write(&mut self, addr: u16, value: u8)
        requires
            old(self).wf(),
            0xFF80 <= addr <= 0xFFFE,
        ensures
            final(self).view() == old(self).view().update(addr - 0xFF80, value),
    {
        self.mem.set((addr - 0xFF80) as usize, value);
    }
}

impl Unusable {
    pub closed spec fn view(&self) -> Seq<u8> {
        self.mem@
    }

    pub open spec fn wf(&self) -> bool {
        self.view().len() == 96
    }

    pub fn new() -> (r: Self)
        ensures
            r.wf(),
            forall|i: int| 0 <= i < 96 ==> r.view()[i] == 0,
    {
        Unusable { mem: zeroed(96) }
    }

    pub fn read(&self, addr: u16) -> (r: u8)
        requires
            self.wf(),
            0xFEA0 <= addr <= 0xFEFF,
        ensures
            r == self.view()[addr - 0xFEA0],
    {
        self.mem[(addr - 0xFEA0) as usize]
    }

    pub fn write(&mut self, addr: u16, value: u8)
        requires
            old(self).wf(),
            0xFEA0 <= addr <= 0xFEFF,
        ensures
            final(self).view() == old(self).view().update(addr - 0xFEA0, value),
    {
        self.mem.set((addr - 0xFEA0) as usize, value);
    }
}

impl WRAM {
    pub closed spec fn view(&self) -> Seq<u8> {
        self.mem@
    }

    pub open spec fn wf(&self) -> bool {
        self.view().len() == 0x2000
    }

    pub fn new() -> (r: Self)
        ensures
            r.wf(),
            forall|i: int| 0 <= i < 0x2000 ==> r.view()[i] == 0,
    {
        WRAM { mem: zeroed(0x2000) }
    }

    pub fn read(&self, addr: u16) -> (r: u8)
        requires
            self.wf(),
            0xC000 <= addr <= 0xDFFF,
        ensures
            r == self.view()[addr - 0xC000],
    {
        self.mem[(addr - 0xC000) as usize]
    }

    pub fn write(&mut self, addr: u16, value: u8)
        requires
            old(self).wf(),
            0xC000 <= addr <= 0xDFFF,
        ensures
            final(self).view() == old(self).view().update(addr - 0xC000, value),
    {
        self.mem.set((addr - 0xC000) as usize, value);
    }
}

} // verus!
