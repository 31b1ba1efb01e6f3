use vstd::prelude::*;
use crate::mmu::MMU;
use crate::regs::{Registers, w16, word};

verus! {

/// The CPU: registers, the halt latch and the interrupt master enable (IME).
pub struct Cpu {
    pub regs: Registers,
    pub halt: bool,
    pub i_master: bool,
}

/// An 8-bit operand: a register, the immediate byte, or a memory cell.
#[derive(Debug, Clone, Copy, PartialEq, Eq, Structural)]
pub enum Operand8 {
    B,
    C,
    D,
    E,
    H,
    L,
    MemHL,
    A,
    /// The byte after the opcode.
    D8,
    MemBC,
    MemDE,
    /// (HL), then HL += 1.
    MemHLInc,
    /// (HL), then HL -= 1.
    MemHLDec,
    /// (0xFF00 + C).
    MemC,
    /// (0xFF00 + n), n the byte after the opcode.
    MemD8,
    /// (nn), nn the two bytes after the opcode.
    MemD16,
}

/// A 16-bit operand: a register pair, SP, PC, or the two bytes after the opcode.
#[derive(Debug, Clone, Copy, PartialEq, Eq, Structural)]
pub enum Operand16 {
    AF,
    BC,
    DE,
    HL,
    SP,
    PC,
    D16,
}

pub open spec fn is_reg8(op: Operand8) -> bool {
    match op {
        Operand8::B | Operand8::C | Operand8::D | Operand8::E | Operand8::H | Operand8::L
        | Operand8::A => true,
        _ => false,
    }
}

pub open spec fn is_mem8(op: Operand8) -> bool {
    !is_reg8(op) && op != Operand8::D8
}

pub open spec fn reg_get(r: Registers, op: Operand8) -> u8 {
    match op {
        Operand8::B => r.b,
        Operand8::C => r.c,
        Operand8::D => r.d,
        Operand8::E => r.e,
        Operand8::H => r.h,
        Operand8::L => r.l,
        _ => r.a,
    }
}

pub open spec fn reg_set(r: Registers, op: Operand8, v: u8) -> Registers {
    match op {
        Operand8::B => Registers { b: v, ..r },
        Operand8::C => Registers { c: v, ..r },
        Operand8::D => Registers { d: v, ..r },
        Operand8::E => Registers { e: v, ..r },
        Operand8::H => Registers { h: v, ..r },
        Operand8::L => Registers { l: v, ..r },
        _ => Registers { a: v, ..r },
    }
}

/// For a memory operand: the registers once its address is formed, and the address.
pub open spec fn mem_operand(r: Registers, m: MMU, op: Operand8) -> (Registers, u16) {
    match op {
        Operand8::MemBC => (r, r.bc_spec()),
        Operand8::MemDE => (r, r.de_spec()),
        Operand8::MemHLInc => (r.with_hl(w16(r.hl_spec() + 1)), r.hl_spec()),
        Operand8::MemHLDec => (r.with_hl(w16(r.hl_spec() - 1)), r.hl_spec()),
        Operand8::MemC => (r, (0xFF00 + r.c) as u16),
        Operand8::MemD8 => (Registers { pc: w16(r.pc + 1), ..r }, (0xFF00 + m.read_spec(r.pc)) as u16),
        Operand8::MemD16 => (
            Registers { pc: w16(r.pc + 2), ..r },
            word(m.read_spec(w16(r.pc + 1)), m.read_spec(r.pc)),
        ),
        _ => (r, r.hl_spec()),
    }
}

/// Reading an operand: the registers afterwards, and the byte read.
pub open spec fn operand_read(r: Registers, m: MMU, op: Operand8) -> (Registers, u8) {
    if is_reg8(op) {
        (r, reg_get(r, op))
    } else if op == Operand8::D8 {
        (Registers { pc: w16(r.pc + 1), ..r }, m.read_spec(r.pc))
    } else {
        (mem_operand(r, m, op).0, m.read_spec(mem_operand(r, m, op).1))
    }
}

/// Writing `v` to an operand takes (r, m) to (r2, m2).
pub open spec fn store8_post(
    r: Registers,
    m: MMU,
    r2: Registers,
    m2: MMU,
    op: Operand8,
    v: u8,
) -> bool {
    if is_reg8(op) {
        r2 == reg_set(r, op, v) && m2 == m
    } else {
        r2 == mem_operand(r, m, op).0 && MMU::write_post(m, m2, mem_operand(r, m, op).1, v)
    }
}

/// T-cycles that an operand adds to an instruction's base cost.
pub open spec fn overhead8(op: Operand8) -> u8 {
    match op {
        Operand8::D8 | Operand8::MemHLInc | Operand8::MemHLDec | Operand8::MemC => 4,
        Operand8::MemHL | Operand8::MemBC | Operand8::MemDE | Operand8::MemD8 => 8,
        Operand8::MemD16 => 16,
        _ => 0,
    }
}

pub open spec fn read16_spec(r: Registers, m: MMU, op: Operand16) -> (Registers, u16) {
    match op {
        Operand16::AF => (r, r.af_spec()),
        Operand16::BC => (r, r.bc_spec()),
        Operand16::DE => (r, r.de_spec()),
        Operand16::HL => (r, r.hl_spec()),
        Operand16::SP => (r, r.sp),
        Operand16::PC => (r, r.pc),
        Operand16::D16 => (
            Registers { pc: w16(r.pc + 2), ..r },
            word(m.read_spec(w16(r.pc + 1)), m.read_spec(r.pc)),
        ),
    }
}

pub open spec fn set16(r: Registers, op: Operand16, v: u16) -> Registers {
    match op {
        Operand16::AF => r.with_af(v),
        Operand16::BC => r.with_bc(v),
        Operand16::DE => r.with_de(v),
        Operand16::HL => r.with_hl(v),
        Operand16::SP => Registers { sp: v, ..r },
        Operand16::PC => Registers { pc: v, ..r },
        Operand16::D16 => r,
    }
}

pub open spec fn overhead16(op: Operand16) -> u8 {
    if op == Operand16::D16 { 8 } else { 0 }
}

/// `x + k` modulo 2^16.
pub fn wrap_add16(x: u16, k: u16) -> (r: u16)
    ensures
        r == w16(x + k),
{
    ((x as u32 + k as u32) % 65536) as u16
}

/// `x - k` modulo 2^16.
pub fn wrap_sub16(x: u16, k: u16) -> (r: u16)
    ensures
        r == w16(x - k),
{
    ((x as u32 + 65536 - k as u32) % 65536) as u16
}

impl Cpu {
    pub fn new() -> (r: Cpu)
        ensures
            r.regs == Registers::new_spec(),
            !r.halt,
            !r.i_master,
    {
        Cpu { regs: Registers::new(), halt: false, i_master: false }
    }
}

/// The address of a memory operand; PC or HL move on as the operand says.
pub fn mem_addr(cpu: &mut Cpu, mmu: &MMU, op: Operand8) -> (addr: u16)
    requires
        mmu.wf(),
        is_mem8(op),
    ensures
        *final(cpu) == (Cpu { regs: mem_operand(old(cpu).regs, *mmu, op).0, ..*old(cpu) }),
        addr == mem_operand(old(cpu).regs, *mmu, op).1,
{
    match op {
        Operand8::MemBC => cpu.regs.bc(),
        Operand8::MemDE => cpu.regs.de(),
        Operand8::MemHLInc => {
            let hl = cpu.regs.hl();
            cpu.regs.set_hl(wrap_add16(hl, 1));
            hl
        },
        Operand8::MemHLDec => {
            let hl = cpu.regs.hl();
            cpu.regs.set_hl(wrap_sub16(hl, 1));
            hl
        },
        Operand8::MemC => 0xFF00 + cpu.regs.c as u16,
        Operand8::MemD8 => {
            let pc = cpu.regs.pc;
            let n = mmu.read(pc);
            cpu.regs.pc = wrap_add16(pc, 1);
            0xFF00 + n as u16
        },
        Operand8::MemD16 => {
            let pc = cpu.regs.pc;
            let lo = mmu.read(pc);
            let hi = mmu.read(wrap_add16(pc, 1));
            cpu.regs.pc = wrap_add16(pc, 2);
            hi as u16 * 256 + lo as u16
        },
        _ => cpu.regs.hl(),
    }
}

/// Reads an 8-bit operand.
pub fn read8(cpu: &mut Cpu, mmu: &MMU, op: Operand8) -> (v: u8)
    requires
        mmu.wf(),
    ensures
        *final(cpu) == (Cpu { regs: operand_read(old(cpu).regs, *mmu, op).0, ..*old(cpu) }),
        v == operand_read(old(cpu).regs, *mmu, op).1,
{
    match op {
        Operand8::B => cpu.regs.b,
        Operand8::C => cpu.regs.c,
        Operand8::D => cpu.regs.d,
        Operand8::E => cpu.regs.e,
        Operand8::H => cpu.regs.h,
        Operand8::L => cpu.regs.l,
        Operand8::A => cpu.regs.a,
        Operand8::D8 => {
            let pc = cpu.regs.pc;
            let v = mmu.read(pc);
            cpu.regs.pc = wrap_add16(pc, 1);
            v
        },
        _ => {
            let addr = mem_addr(cpu, mmu, op);
            mmu.read(addr)
        },
    }
}

/// Writes an 8-bit operand (any but the immediate byte).
pub fn write8(cpu: &mut Cpu, mmu: &mut MMU, op: Operand8, v: u8)
    requires
        old(mmu).wf(),
        op != Operand8::D8,
    ensures
        final(mmu).wf(),
        store8_post(old(cpu).regs, *old(mmu), final(cpu).regs, *final(mmu), op, v),
        final(cpu).halt == old(cpu).halt,
        final(cpu).i_master == old(cpu).i_master,
{
    match op {
        Operand8::B => cpu.regs.b = v,
        Operand8::C => cpu.regs.c = v,
        Operand8::D => cpu.regs.d = v,
        Operand8::E => cpu.regs.e = v,
        Operand8::H => cpu.regs.h = v,
        Operand8::L => cpu.regs.l = v,
        Operand8::A => cpu.regs.a = v,
        _ => {
            let addr = mem_addr(cpu, mmu, op);
            mmu.write(addr, v);
        },
    }
}

/// T-cycles that an 8-bit operand adds.
pub fn cycles8(op: Operand8) -> (r: u8)
    ensures
        r == overhead8(op),
{
    match op {
        Operand8::D8 | Operand8::MemHLInc | Operand8::MemHLDec | Operand8::MemC => 4,
        Operand8::MemHL | Operand8::MemBC | Operand8::MemDE | Operand8::MemD8 => 8,
        Operand8::MemD16 => 16,
        _ => 0,
    }
}

/// Reads a 16-bit operand.
pub fn read16(cpu: &mut Cpu, mmu: &MMU, op: Operand16) -> (v: u16)
    requires
        mmu.wf(),
    ensures
        *final(cpu) == (Cpu { regs: read16_spec(old(cpu).regs, *mmu, op).0, ..*old(cpu) }),
        v == read16_spec(old(cpu).regs, *mmu, op).1,
{
    match op {
        Operand16::AF => cpu.regs.af(),
        Operand16::BC => cpu.regs.bc(),
        Operand16::DE => cpu.regs.de(),
        Operand16::HL => cpu.regs.hl(),
        Operand16::SP => cpu.regs.sp,
        Operand16::PC => cpu.regs.pc,
        Operand16::D16 => {
            let pc = cpu.regs.pc;
            cpu.regs.pc = wrap_add16(pc, 2);
            let lo = mmu.read(pc);
            let hi = mmu.read(wrap_add16(pc, 1));
            hi as u16 * 256 + lo as u16
        },
    }
}

/// Writes a 16-bit register operand.
pub fn write16(cpu: &mut Cpu, op: Operand16, v: u16)
    ensures
        *final(cpu) == (Cpu { regs: set16(old(cpu).regs, op, v), ..*old(cpu) }),
{
    match op {
        Operand16::AF => cpu.regs.set_af(v),
        Operand16::BC => cpu.regs.set_bc(v),
        Operand16::DE => cpu.regs.set_de(v),
        Operand16::HL => cpu.regs.set_hl(v),
        Operand16::SP => cpu.regs.sp = v,
        Operand16::PC => cpu.regs.pc = v,
        Operand16::D16 => {},
    }
}

/// T-cycles that a 16-bit operand adds.
pub fn cycles16(op: Operand16) -> (r: u8)
    ensures
        r == overhead16(op),
{
    if op == Operand16::D16 { 8 } else { 0 }
}

} // verus!
