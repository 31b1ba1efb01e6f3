use vstd::prelude::*;

verus! {

/// One of the four flags held in bits 7..4 of F.
#[derive(Debug, Clone, Copy, PartialEq, Eq, Structural)]
pub enum Flag {
    Zero,
    Sub,
    HalfCarry,
    Carry,
}

/// `x` reduced modulo 2^8.
pub open spec fn w8(x: int) -> u8 {
    (x % 256) as u8
}

/// `x` reduced modulo 2^16.
pub open spec fn w16(x: int) -> u16 {
    (x % 65536) as u16
}

/// The 16-bit value with high byte `hi` and low byte `lo`.
pub open spec fn word(hi: u8, lo: u8) -> u16 {
    (hi as int * 256 + lo as int) as u16
}

/// The register file: A, B, C, D, E, H, L, SP, PC, and the flags of F.
#[derive(Clone, Copy, PartialEq, Eq, Structural)]
pub struct Registers {
    pub a: u8,
    pub b: u8,
    pub c: u8,
    pub d: u8,
    pub e: u8,
    pub h: u8,
    pub l: u8,
    pub sp: u16,
    pub pc: u16,
    pub zf: bool,
    pub nf: bool,
    pub hf: bool,
    pub cf: bool,
}

/// F as a byte: Z, N, H, C in bits 7..4, bits 3..0 clear.
pub open spec fn f_of(z: bool, n: bool, h: bool, c: bool) -> u8 {
    ((if z { 0x80int } else { 0 }) + (if n { 0x40int } else { 0 }) + (if h { 0x20int } else { 0 })
        + (if c { 0x10int } else { 0 })) as u8
}

impl Registers {
    pub open spec fn f_spec(&self) -> u8 {
        f_of(self.zf, self.nf, self.hf, self.cf)
    }

    pub open spec fn bc_spec(&self) -> u16 {
        word(self.b, self.c)
    }

    pub open spec fn de_spec(&self) -> u16 {
        word(self.d, self.e)
    }

    pub open spec fn hl_spec(&self) -> u16 {
        word(self.h, self.l)
    }

    pub open spec fn af_spec(&self) -> u16 {
        word(self.a, self.f_spec())
    }

    pub open spec fn flag_spec(&self, f: Flag) -> bool {
        match f {
            Flag::Zero => self.zf,
            Flag::Sub => self.nf,
            Flag::HalfCarry => self.hf,
            Flag::Carry => self.cf,
        }
    }

    pub open spec fn with_flag(self, f: Flag, v: bool) -> Registers {
        match f {
            Flag::Zero => Registers { zf: v, ..self },
            Flag::Sub => Registers { nf: v, ..self },
            Flag::HalfCarry => Registers { hf: v, ..self },
            Flag::Carry => Registers { cf: v, ..self },
        }
    }

    /// The registers with AF set to `v`: F keeps only the high nibble of the low byte.
    pub open spec fn with_af(self, v: u16) -> Registers {
        let lo = v as int % 256;
        Registers {
            a: (v as int / 256) as u8,
            zf: lo / 128 % 2 == 1,
            nf: lo / 64 % 2 == 1,
            hf: lo / 32 % 2 == 1,
            cf: lo / 16 % 2 == 1,
            ..self
        }
    }

    pub open spec fn with_bc(self, v: u16) -> Registers {
        Registers { b: (v as int / 256) as u8, c: (v as int % 256) as u8, ..self }
    }

    pub open spec fn with_de(self, v: u16) -> Registers {
        Registers { d: (v as int / 256) as u8, e: (v as int % 256) as u8, ..self }
    }

    pub open spec fn with_hl(self, v: u16) -> Registers {
        Registers { h: (v as int / 256) as u8, l: (v as int % 256) as u8, ..self }
    }

    /// All registers clear.
    pub open spec fn new_spec() -> Registers {
        Registers {
            a: 0, b: 0, c: 0, d: 0, e: 0, h: 0, l: 0, sp: 0, pc: 0,
            zf: false, nf: false, hf: false, cf: false,
        }
    }

    pub fn new() -> (r: Registers)
        ensures
            r == Registers::new_spec(),
    {
        Registers {
            a: 0, b: 0, c: 0, d: 0, e: 0, h: 0, l: 0, sp: 0, pc: 0,
            zf: false, nf: false, hf: false, cf: false,
        }
    }

    pub fn f(&self) -> (r: u8)
        ensures
            r == self.f_spec(),
    {
        (if self.zf { 0x80u8 } else { 0 }) + (if self.nf { 0x40u8 } else { 0 }) + (if self.hf {
            0x20u8
        } else {
            0
        }) + (if self.cf { 0x10u8 } else { 0 })
    }

    pub fn af(&self) -> (r: u16)
        ensures
            r == self.af_spec(),
    {
        self.a as u16 * 256 + self.f() as u16
    }

    pub fn bc(&self) -> (r: u16)
        ensures
            r == self.bc_spec(),
    {
        self.b as u16 * 256 + self.c as u16
    }

    pub fn de(&self) -> (r: u16)
        ensures
            r == self.de_spec(),
    {
        self.d as u16 * 256 + self.e as u16
    }

    pub fn hl(&self) -> (r: u16)
        ensures
            r == self.hl_spec(),
    {
        self.h as u16 * 256 + self.l as u16
    }

    /// Sets AF; the low nibble of F is dropped.
    pub fn set_af(&mut self, val: u16)
        ensures
            *final(self) == old(self).with_af(val),
    {
        let lo: u16 = val % 256;
        self.a = (val / 256) as u8;
        self.zf = lo / 128 % 2 == 1;
        self.nf = lo / 64 % 2 == 1;
        self.hf = lo / 32 % 2 == 1;
        self.cf = lo / 16 % 2 == 1;
    }

    pub fn set_bc(&mut self, val: u16)
        ensures
            *final(self) == old(self).with_bc(val),
    {
        self.b = (val / 256) as u8;
        self.c = (val % 256) as u8;
    }

    pub fn set_de(&mut self, val: u16)
        ensures
            *final(self) == old(self).with_de(val),
    {
        self.d = (val / 256) as u8;
        self.e = (val % 256) as u8;
    }

    pub fn set_hl(&mut self, val: u16)
        ensures
            *final(self) == old(self).with_hl(val),
    {
        self.h = (val / 256) as u8;
        self.l = (val % 256) as u8;
    }

    pub fn pc(&self) -> (r: u16)
        ensures
            r == self.pc,
    {
        self.pc
    }

    pub fn sp(&self) -> (r: u16)
        ensures
            r == self.sp,
    {
        self.sp
    }

    pub fn set_pc(&mut self, val: u16)
        ensures
            *final(self) == (Registers { pc: val, ..*old(self) }),
    {
        self.pc = val;
    }

    pub fn set_sp(&mut self, val: u16)
        ensures
            *final(self) == (Registers { sp: val, ..*old(self) }),
    {
        self.sp = val;
    }

    pub fn flag(&self, f: Flag) -> (r: bool)
        ensures
            r == self.flag_spec(f),
    {
        match f {
            Flag::Zero => self.zf,
            Flag::Sub => self.nf,
            Flag::HalfCarry => self.hf,
            Flag::Carry => self.cf,
        }
    }

    pub fn set_flag(&mut self, f: Flag, value: bool)
        ensures
            *final(self) == old(self).with_flag(f, value),
    {
        match f {
            Flag::Zero => self.zf = value,
            Flag::Sub => self.nf = value,
            Flag::HalfCarry => self.hf = value,
            Flag::Carry => self.cf = value,
        }
    }
}

/// F never holds a set bit below bit 4, and AF read back after a write gives the value
/// written with the low nibble of F cleared.
pub proof fn lemma_f_low_nibble(r: Registers, v: u16)
    ensures
        r.f_spec() % 16 == 0,
        r.with_af(v).f_spec() == v as int % 256 / 16 * 16,
        r.with_af(v).af_spec() == v as int / 16 * 16,
{
    let lo = v as int % 256;
    let k = lo / 16;
    assert(0 <= k < 16);
    assert(r.with_af(v).f_spec() == k * 16) by {
        assert(lo / 128 == k / 8);
        assert(lo / 64 == k / 4);
        assert(lo / 32 == k / 2);
        assert(lo / 16 == k);
    }
    assert(v as int / 16 * 16 == (v as int / 256) * 256 + k * 16);
}

} // verus!
