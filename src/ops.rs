use vstd::prelude::*;
use crate::cpu::{
    Cpu, Operand16, Operand8, cycles16, cycles8, is_reg8, operand_read, overhead16, overhead8,
    read16, read16_spec, read8, set16, store8_post, wrap_add16, wrap_sub16, write16, write8,
};
use crate::mmu::MMU;
use crate::regs::{Flag, Registers, w16, w8};

verus! {

/// 8-bit addition: result, carry out of bit 3, carry out of bit 7.
pub open spec fn add8(a: u8, b: u8) -> (u8, bool, bool) {
    (w8(a + b), a % 16 + b % 16 > 15, a + b > 255)
}

/// 8-bit subtraction: result, borrow from bit 4, borrow.
pub open spec fn sub8(a: u8, b: u8) -> (u8, bool, bool) {
    (w8(a - b), a % 16 < b % 16, a < b)
}

/// Addition with carry in.
pub open spec fn adc8(a: u8, b: u8, cin: bool) -> (u8, bool, bool) {
    let c: int = if cin { 1 } else { 0 };
    (w8(a + b + c), a % 16 + b % 16 + c > 15, a + b + c > 255)
}

/// Subtraction with borrow in.
pub open spec fn sbc8(a: u8, b: u8, cin: bool) -> (u8, bool, bool) {
    let c: int = if cin { 1 } else { 0 };
    (w8(a - b - c), a % 16 < b % 16 + c, a < b + c)
}

/// The signed value of a relative jump offset.
pub open spec fn sext(v: u8) -> int {
    if v < 128 { v as int } else { v as int - 256 }
}

pub open spec fn after_add(r: Registers, v: u8, cin: bool) -> Registers {
    let t = adc8(r.a, v, cin);
    Registers { a: t.0, zf: t.0 == 0, nf: false, hf: t.1, cf: t.2, ..r }
}

pub open spec fn after_sub(r: Registers, v: u8, cin: bool) -> Registers {
    let t = sbc8(r.a, v, cin);
    Registers { a: t.0, zf: t.0 == 0, nf: true, hf: t.1, cf: t.2, ..r }
}

pub open spec fn after_cp(r: Registers, v: u8) -> Registers {
    let t = sub8(r.a, v);
    Registers { zf: t.0 == 0, nf: true, hf: t.1, cf: t.2, ..r }
}

pub open spec fn after_and(r: Registers, v: u8) -> Registers {
    Registers { a: r.a & v, zf: r.a & v == 0, nf: false, hf: true, cf: false, ..r }
}

pub open spec fn after_or(r: Registers, v: u8) -> Registers {
    Registers { a: r.a | v, zf: r.a | v == 0, nf: false, hf: false, cf: false, ..r }
}

pub open spec fn after_xor(r: Registers, v: u8) -> Registers {
    Registers { a: r.a ^ v, zf: r.a ^ v == 0, nf: false, hf: false, cf: false, ..r }
}

pub open spec fn after_daa(r: Registers) -> Registers {
    if r.nf {
        let a1 = if r.cf { w8(r.a - 0x60) } else { r.a };
        let a2 = if r.hf { w8(a1 - 0x06) } else { a1 };
        Registers { a: a2, zf: a2 == 0, hf: false, ..r }
    } else {
        let up = r.a > 0x99 || r.cf;
        let a1 = if up { w8(r.a + 0x60) } else { r.a };
        let a2 = if a1 % 16 > 9 || r.hf { w8(a1 + 0x06) } else { a1 };
        Registers { a: a2, zf: a2 == 0, hf: false, cf: up, ..r }
    }
}

/// Bytes pushed: `val`'s high byte at SP-1, then its low byte at SP-2.
pub open spec fn push_post(m: MMU, m2: MMU, sp: u16, val: u16) -> bool {
    exists|mid: MMU|
        #[trigger] MMU::write_post(m, mid, w16(sp - 1), (val as int / 256) as u8) && MMU::write_post(
            mid,
            m2,
            w16(sp - 2),
            (val as int % 256) as u8,
        )
}

/// The word stored little-endian at `sp` and `sp + 1`.
pub open spec fn stack_word(m: MMU, sp: u16) -> u16 {
    (m.read_spec(w16(sp + 1)) as int * 256 + m.read_spec(sp) as int) as u16
}

pub fn add8_carry(a: u8, b: u8) -> (r: (u8, bool, bool))
    ensures
        r == add8(a, b),
{
    let s: u16 = a as u16 + b as u16;
    ((s % 256) as u8, a % 16 + b % 16 > 15, s > 255)
}

pub fn sub8_carry(a: u8, b: u8) -> (r: (u8, bool, bool))
    ensures
        r == sub8(a, b),
{
    (((a as u16 + 256 - b as u16) % 256) as u8, a % 16 < b % 16, a < b)
}

pub fn halt(cpu: &mut Cpu) -> (t: u8)
    ensures
        *final(cpu) == (Cpu { halt: true, ..*old(cpu) }),
        t == 4,
{
    cpu.halt = true;
    4
}

pub fn enable_interrupts(cpu: &mut Cpu) -> (t: u8)
    ensures
        *final(cpu) == (Cpu { i_master: true, ..*old(cpu) }),
        t == 4,
{
    cpu.i_master = true;
    4
}

pub fn disable_interrupts(cpu: &mut Cpu) -> (t: u8)
    ensures
        *final(cpu) == (Cpu { i_master: false, ..*old(cpu) }),
        t == 4,
{
    cpu.i_master = false;
    4
}

pub fn nop() -> (t: u8)
    ensures
        t == 4,
{
    4
}

/// LD dst, src.
pub fn ld(cpu: &mut Cpu, mmu: &mut MMU, dst: Operand8, src: Operand8) -> (t: u8)
    requires
        old(mmu).wf(),
        dst != Operand8::D8,
    ensures
        final(mmu).wf(),
        store8_post(
            operand_read(old(cpu).regs, *old(mmu), src).0,
            *old(mmu),
            final(cpu).regs,
            *final(mmu),
            dst,
            operand_read(old(cpu).regs, *old(mmu), src).1,
        ),
        final(cpu).halt == old(cpu).halt && final(cpu).i_master == old(cpu).i_master,
        t == 4 + overhead8(src) + overhead8(dst),
{
    let v = read8(cpu, mmu, src);
    write8(cpu, mmu, dst, v);
    4 + cycles8(src) + cycles8(dst)
}

/// 16-bit LD dst, src (registers or the immediate word).
pub fn ld_16(cpu: &mut Cpu, mmu: &MMU, dst: Operand16, src: Operand16) -> (t: u8)
    requires
        mmu.wf(),
    ensures
        *final(cpu) == (Cpu {
            regs: set16(
                read16_spec(old(cpu).regs, *mmu, src).0,
                dst,
                read16_spec(old(cpu).regs, *mmu, src).1,
            ),
            ..*old(cpu)
        }),
        t == 4 + overhead16(src) + overhead16(dst),
{
    let v = read16(cpu, mmu, src);
    write16(cpu, dst, v);
    4 + cycles16(src) + cycles16(dst)
}

pub fn and(cpu: &mut Cpu, mmu: &MMU, src: Operand8) -> (t: u8)
    requires
        mmu.wf(),
    ensures
        *final(cpu) == (Cpu {
            regs: after_and(
                operand_read(old(cpu).regs, *mmu, src).0,
                operand_read(old(cpu).regs, *mmu, src).1,
            ),
            ..*old(cpu)
        }),
        t == 4 + overhead8(src),
{
    let v = read8(cpu, mmu, src);
    let res = cpu.regs.a & v;
    cpu.regs.a = res;
    cpu.regs.set_flag(Flag::Zero, res == 0);
    cpu.regs.set_flag(Flag::Sub, false);
    cpu.regs.set_flag(Flag::HalfCarry, true);
    cpu.regs.set_flag(Flag::Carry, false);
    4 + cycles8(src)
}

pub fn or(cpu: &mut Cpu, mmu: &MMU, src: Operand8) -> (t: u8)
    requires
        mmu.wf(),
    ensures
        *final(cpu) == (Cpu {
            regs: after_or(
                operand_read(old(cpu).regs, *mmu, src).0,
                operand_read(old(cpu).regs, *mmu, src).1,
            ),
            ..*old(cpu)
        }),
        t == 4 + overhead8(src),
{
    let v = read8(cpu, mmu, src);
    let res = cpu.regs.a | v;
    cpu.regs.a = res;
    cpu.regs.set_flag(Flag::Zero, res == 0);
    cpu.regs.set_flag(Flag::Sub, false);
    cpu.regs.set_flag(Flag::HalfCarry, false);
    cpu.regs.set_flag(Flag::Carry, false);
    4 + cycles8(src)
}

pub fn xor(cpu: &mut Cpu, mmu: &MMU, src: Operand8) -> (t: u8)
    requires
        mmu.wf(),
    ensures
        *final(cpu) == (Cpu {
            regs: after_xor(
                operand_read(old(cpu).regs, *mmu, src).0,
                operand_read(old(cpu).regs, *mmu, src).1,
            ),
            ..*old(cpu)
        }),
        t == 4 + overhead8(src),
{
    let v = read8(cpu, mmu, src);
    let res = cpu.regs.a ^ v;
    cpu.regs.a = res;
    cpu.regs.set_flag(Flag::Zero, res == 0);
    cpu.regs.set_flag(Flag::Sub, false);
    cpu.regs.set_flag(Flag::HalfCarry, false);
    cpu.regs.set_flag(Flag::Carry, false);
    4 + cycles8(src)
}

pub fn cp(cpu: &mut Cpu, mmu: &MMU, src: Operand8) -> (t: u8)
    requires
        mmu.wf(),
    ensures
        *final(cpu) == (Cpu {
            regs: after_cp(
                operand_read(old(cpu).regs, *mmu, src).0,
                operand_read(old(cpu).regs, *mmu, src).1,
            ),
            ..*old(cpu)
        }),
        t == 4 + overhead8(src),
{
    let v = read8(cpu, mmu, src);
    let (res, hcarry, carry) = sub8_carry(cpu.regs.a, v);
    cpu.regs.set_flag(Flag::Zero, res == 0);
    cpu.regs.set_flag(Flag::Sub, true);
    cpu.regs.set_flag(Flag::HalfCarry, hcarry);
    cpu.regs.set_flag(Flag::Carry, carry);
    4 + cycles8(src)
}

pub fn add(cpu: &mut Cpu, mmu: &MMU, src: Operand8) -> (t: u8)
    requires
        mmu.wf(),
    ensures
        *final(cpu) == (Cpu {
            regs: after_add(
                operand_read(old(cpu).regs, *mmu, src).0,
                operand_read(old(cpu).regs, *mmu, src).1,
                false,
            ),
            ..*old(cpu)
        }),
        t == 4 + overhead8(src),
{
    let v = read8(cpu, mmu, src);
    let (res, hcarry, carry) = add8_carry(cpu.regs.a, v);
    cpu.regs.set_flag(Flag::Zero, res == 0);
    cpu.regs.set_flag(Flag::Sub, false);
    cpu.regs.set_flag(Flag::HalfCarry, hcarry);
    cpu.regs.set_flag(Flag::Carry, carry);
    cpu.regs.a = res;
    4 + cycles8(src)
}

/// Adding the carry first and then the operand gives the one-step ADC result.
proof fn lemma_adc_steps(a: u8, b: u8, cin: bool)
    ensures
        ({
            let s1 = add8(a, if cin { 1u8 } else { 0u8 });
            let s2 = add8(s1.0, b);
            (s2.0, s1.1 || s2.1, s1.2 || s2.2) == adc8(a, b, cin)
        }),
{
    if cin {
        let s1 = add8(a, 1u8);
        if a == 255 {
            assert(s1.0 == 0);
        } else {
            assert(s1.0 == a + 1);
            if a % 16 == 15 {
                assert((a + 1) % 16 == 0);
            } else {
                assert((a + 1) % 16 == a % 16 + 1);
            }
        }
    } else {
        assert(add8(a, 0u8).0 == a);
    }
}

/// Subtracting the carry first and then the operand gives the one-step SBC result.
proof fn lemma_sbc_steps(a: u8, b: u8, cin: bool)
    ensures
        ({
            let s1 = sub8(a, if cin { 1u8 } else { 0u8 });
            let s2 = sub8(s1.0, b);
            (s2.0, s1.1 || s2.1, s1.2 || s2.2) == sbc8(a, b, cin)
        }),
{
    if cin {
        let s1 = sub8(a, 1u8);
        if a == 0 {
            assert(s1.0 == 255);
        } else {
            assert(s1.0 == a - 1);
            if a % 16 == 0 {
                assert((a - 1) % 16 == 15);
            } else {
                assert((a - 1) % 16 == a % 16 - 1);
            }
        }
    } else {
        assert(sub8(a, 0u8).0 == a);
    }
}

/// ADC: A + src + C, as two additions whose half-carries and carries are combined.
pub fn adc(cpu: &mut Cpu, mmu: &MMU, src: Operand8) -> (t: u8)
    requires
        mmu.wf(),
    ensures
        *final(cpu) == (Cpu {
            regs: after_add(
                operand_read(old(cpu).regs, *mmu, src).0,
                operand_read(old(cpu).regs, *mmu, src).1,
                old(cpu).regs.cf,
            ),
            ..*old(cpu)
        }),
        t == 4 + overhead8(src),
{
    let cin: u8 = if cpu.regs.cf { 1 } else { 0 };
    let (res_1, hcarry_1, carry_1) = add8_carry(cpu.regs.a, cin);
    let v = read8(cpu, mmu, src);
    let (res_2, hcarry_2, carry_2) = add8_carry(res_1, v);
    proof {
        lemma_adc_steps(old(cpu).regs.a, v, old(cpu).regs.cf);
    }
    cpu.regs.set_flag(Flag::Zero, res_2 == 0);
    cpu.regs.set_flag(Flag::Sub, false);
    cpu.regs.set_flag(Flag::HalfCarry, hcarry_1 || hcarry_2);
    cpu.regs.set_flag(Flag::Carry, carry_1 || carry_2);
    cpu.regs.a = res_2;
    4 + cycles8(src)
}

pub fn sub(cpu: &mut Cpu, mmu: &MMU, src: Operand8) -> (t: u8)
    requires
        mmu.wf(),
    ensures
        *final(cpu) == (Cpu {
            regs: after_sub(
                operand_read(old(cpu).regs, *mmu, src).0,
                operand_read(old(cpu).regs, *mmu, src).1,
                false,
            ),
            ..*old(cpu)
        }),
        t == 4 + overhead8(src),
{
    let v = read8(cpu, mmu, src);
    let (res, hcarry, carry) = sub8_carry(cpu.regs.a, v);
    cpu.regs.set_flag(Flag::Zero, res == 0);
    cpu.regs.set_flag(Flag::Sub, true);
    cpu.regs.set_flag(Flag::HalfCarry, hcarry);
    cpu.regs.set_flag(Flag::Carry, carry);
    cpu.regs.a = res;
    4 + cycles8(src)
}

/// SBC: A - src - C, as two subtractions whose borrows are combined.
pub fn sbc(cpu: &mut Cpu, mmu: &MMU, src: Operand8) -> (t: u8)
    requires
        mmu.wf(),
    ensures
        *final(cpu) == (Cpu {
            regs: after_sub(
                operand_read(old(cpu).regs, *mmu, src).0,
                operand_read(old(cpu).regs, *mmu, src).1,
                old(cpu).regs.cf,
            ),
            ..*old(cpu)
        }),
        t == 4 + overhead8(src),
{
    let cin: u8 = if cpu.regs.cf { 1 } else { 0 };
    let (res_1, hcarry_1, carry_1) = sub8_carry(cpu.regs.a, cin);
    let v = read8(cpu, mmu, src);
    let (res_2, hcarry_2, carry_2) = sub8_carry(res_1, v);
    proof {
        lemma_sbc_steps(old(cpu).regs.a, v, old(cpu).regs.cf);
    }
    cpu.regs.set_flag(Flag::Zero, res_2 == 0);
    cpu.regs.set_flag(Flag::Sub, true);
    cpu.regs.set_flag(Flag::HalfCarry, hcarry_1 || hcarry_2);
    cpu.regs.set_flag(Flag::Carry, carry_1 || carry_2);
    cpu.regs.a = res_2;
    4 + cycles8(src)
}

/// Operands that an instruction can both read and write in place.
pub open spec fn is_rw8(op: Operand8) -> bool {
    is_reg8(op) || op == Operand8::MemHL
}

/// INC of `op` takes (r, m) to (r2, m2).
pub open spec fn inc_post(r: Registers, m: MMU, r2: Registers, m2: MMU, op: Operand8) -> bool {
    let s = add8(operand_read(r, m, op).1, 1);
    store8_post(Registers { zf: s.0 == 0, nf: false, hf: s.1, ..r }, m, r2, m2, op, s.0)
}

/// DEC of `op` takes (r, m) to (r2, m2).
pub open spec fn dec_post(r: Registers, m: MMU, r2: Registers, m2: MMU, op: Operand8) -> bool {
    let s = sub8(operand_read(r, m, op).1, 1);
    store8_post(Registers { zf: s.0 == 0, nf: true, hf: s.1, ..r }, m, r2, m2, op, s.0)
}

/// INC on a register or (HL); C is kept.
pub fn inc(cpu: &mut Cpu, mmu: &mut MMU, op: Operand8) -> (t: u8)
    requires
        old(mmu).wf(),
        is_rw8(op),
    ensures
        final(mmu).wf(),
        inc_post(old(cpu).regs, *old(mmu), final(cpu).regs, *final(mmu), op),
        final(cpu).halt == old(cpu).halt && final(cpu).i_master == old(cpu).i_master,
        t == 4 + overhead8(op) + overhead8(op),
{
    let v = read8(cpu, mmu, op);
    let (res, hcarry, _) = add8_carry(v, 1);
    cpu.regs.set_flag(Flag::Zero, res == 0);
    cpu.regs.set_flag(Flag::Sub, false);
    cpu.regs.set_flag(Flag::HalfCarry, hcarry);
    write8(cpu, mmu, op, res);
    4 + cycles8(op) + cycles8(op)
}

/// DEC on a register or (HL); C is kept.
pub fn dec(cpu: &mut Cpu, mmu: &mut MMU, op: Operand8) -> (t: u8)
    requires
        old(mmu).wf(),
        is_rw8(op),
    ensures
        final(mmu).wf(),
        dec_post(old(cpu).regs, *old(mmu), final(cpu).regs, *final(mmu), op),
        final(cpu).halt == old(cpu).halt && final(cpu).i_master == old(cpu).i_master,
        t == 4 + overhead8(op) + overhead8(op),
{
    let v = read8(cpu, mmu, op);
    let (res, hcarry, _) = sub8_carry(v, 1);
    cpu.regs.set_flag(Flag::Zero, res == 0);
    cpu.regs.set_flag(Flag::Sub, true);
    cpu.regs.set_flag(Flag::HalfCarry, hcarry);
    write8(cpu, mmu, op, res);
    4 + cycles8(op) + cycles8(op)
}

/// JR: PC moves by the signed byte after the opcode.
pub fn jr(cpu: &mut Cpu, mmu: &MMU) -> (t: u8)
    requires
        mmu.wf(),
    ensures
        *final(cpu) == (Cpu { regs: jr_target(old(cpu).regs, *mmu), ..*old(cpu) }),
        t == 12,
{
    let v = read8(cpu, mmu, Operand8::D8);
    let pc = cpu.regs.pc;
    cpu.regs.pc = ((pc as u32 + v as u32 + if v >= 128 { 65280u32 } else { 0u32 }) % 65536) as u16;
    12
}

/// JR taken when flag `f` is set; otherwise the offset byte is skipped.
pub fn jr_flag(cpu: &mut Cpu, mmu: &MMU, f: Flag) -> (t: u8)
    requires
        mmu.wf(),
    ensures
        ({
            let (r2, v) = operand_read(old(cpu).regs, *mmu, Operand8::D8);
            *final(cpu) == (Cpu {
                regs: Registers {
                    pc: if old(cpu).regs.flag_spec(f) { w16(r2.pc + sext(v)) } else { r2.pc },
                    ..r2
                },
                ..*old(cpu)
            })
        }),
        t == if old(cpu).regs.flag_spec(f) { 12u8 } else { 8u8 },
{
    if cpu.regs.flag(f) {
        jr(cpu, mmu)
    } else {
        cpu.regs.pc = wrap_add16(cpu.regs.pc, 1);
        8
    }
}

/// JR taken when flag `f` is clear.
pub fn jr_n_flag(cpu: &mut Cpu, mmu: &MMU, f: Flag) -> (t: u8)
    requires
        mmu.wf(),
    ensures
        ({
            let (r2, v) = operand_read(old(cpu).regs, *mmu, Operand8::D8);
            *final(cpu) == (Cpu {
                regs: Registers {
                    pc: if !old(cpu).regs.flag_spec(f) { w16(r2.pc + sext(v)) } else { r2.pc },
                    ..r2
                },
                ..*old(cpu)
            })
        }),
        t == if !old(cpu).regs.flag_spec(f) { 12u8 } else { 8u8 },
{
    if cpu.regs.flag(f) {
        cpu.regs.pc = wrap_add16(cpu.regs.pc, 1);
        8
    } else {
        jr(cpu, mmu)
    }
}

/// JP to the immediate word or to HL.
pub fn jp(cpu: &mut Cpu, mmu: &MMU, src: Operand16) -> (t: u8)
    requires
        mmu.wf(),
    ensures
        ({
            let (r2, addr) = read16_spec(old(cpu).regs, *mmu, src);
            *final(cpu) == (Cpu { regs: Registers { pc: addr, ..r2 }, ..*old(cpu) })
        }),
        t == 4 + overhead16(src),
{
    let addr = read16(cpu, mmu, src);
    cpu.regs.pc = addr;
    4 + cycles16(src)
}

/// JP nn taken when flag `f` is set; otherwise the word is skipped.
pub fn jp_flag(cpu: &mut Cpu, mmu: &MMU, f: Flag) -> (t: u8)
    requires
        mmu.wf(),
    ensures
        ({
            let (r2, addr) = read16_spec(old(cpu).regs, *mmu, Operand16::D16);
            *final(cpu) == (Cpu {
                regs: Registers { pc: if old(cpu).regs.flag_spec(f) { addr } else { r2.pc }, ..r2 },
                ..*old(cpu)
            })
        }),
        t == 12,
{
    if cpu.regs.flag(f) {
        jp(cpu, mmu, Operand16::D16)
    } else {
        cpu.regs.pc = wrap_add16(cpu.regs.pc, 2);
        12
    }
}

/// JP nn taken when flag `f` is clear.
pub fn jp_n_flag(cpu: &mut Cpu, mmu: &MMU, f: Flag) -> (t: u8)
    requires
        mmu.wf(),
    ensures
        ({
            let (r2, addr) = read16_spec(old(cpu).regs, *mmu, Operand16::D16);
            *final(cpu) == (Cpu {
                regs: Registers { pc: if !old(cpu).regs.flag_spec(f) { addr } else { r2.pc }, ..r2 },
                ..*old(cpu)
            })
        }),
        t == 12,
{
    if cpu.regs.flag(f) {
        cpu.regs.pc = wrap_add16(cpu.regs.pc, 2);
        12
    } else {
        jp(cpu, mmu, Operand16::D16)
    }
}

/// PUSH: high byte at SP-1, low byte at SP-2, SP -= 2.
pub fn push(cpu: &mut Cpu, mmu: &mut MMU, src: Operand16) -> (t: u8)
    requires
        old(mmu).wf(),
        src != Operand16::D16,
    ensures
        final(mmu).wf(),
        *final(cpu) == (Cpu {
            regs: Registers { sp: w16(old(cpu).regs.sp - 2), ..old(cpu).regs },
            ..*old(cpu)
        }),
        push_post(
            *old(mmu),
            *final(mmu),
            old(cpu).regs.sp,
            read16_spec(old(cpu).regs, *old(mmu), src).1,
        ),
        t == 16,
{
    let val = read16(cpu, mmu, src);
    let sp: u16 = cpu.regs.sp;
    mmu.write(wrap_sub16(sp, 1), (val / 256) as u8);
    let ghost mid = *mmu;
    mmu.write(wrap_sub16(sp, 2), (val % 256) as u8);
    cpu.regs.sp = wrap_sub16(sp, 2);
    assert(MMU::write_post(mid, *mmu, w16(sp - 2), (val as int % 256) as u8));
    16
}

/// POP into a register pair (AF, BC, DE, HL) or PC.
pub fn pop(cpu: &mut Cpu, mmu: &MMU, dst: Operand16) -> (t: u8)
    requires
        mmu.wf(),
    ensures
        *final(cpu) == (Cpu {
            regs: set16(
                Registers { sp: w16(old(cpu).regs.sp + 2), ..old(cpu).regs },
                dst,
                stack_word(*mmu, old(cpu).regs.sp),
            ),
            ..*old(cpu)
        }),
        t == 12,
{
    let sp: u16 = cpu.regs.sp;
    let lo = mmu.read(sp);
    let hi = mmu.read(wrap_add16(sp, 1));
    let val: u16 = hi as u16 * 256 + lo as u16;
    cpu.regs.sp = wrap_add16(sp, 2);
    write16(cpu, dst, val);
    12
}

/// POP AF: the low nibble of the popped F is dropped.
pub fn pop_af(cpu: &mut Cpu, mmu: &MMU) -> (t: u8)
    requires
        mmu.wf(),
    ensures
        *final(cpu) == (Cpu {
            regs: Registers { sp: w16(old(cpu).regs.sp + 2), ..old(cpu).regs }.with_af(
                stack_word(*mmu, old(cpu).regs.sp),
            ),
            ..*old(cpu)
        }),
        final(cpu).regs.f_spec() == mmu.read_spec(old(cpu).regs.sp) as int / 16 * 16,
        t == 12,
{
    let sp: u16 = cpu.regs.sp;
    let lo = mmu.read(sp);
    let hi = mmu.read(wrap_add16(sp, 1));
    let val: u16 = hi as u16 * 256 + lo as u16;
    cpu.regs.sp = wrap_add16(sp, 2);
    cpu.regs.set_af(val - val % 16);
    proof {
        crate::regs::lemma_f_low_nibble(cpu.regs, val);
        crate::regs::lemma_f_low_nibble(cpu.regs, (val - val % 16) as u16);
    }
    12
}

/// RST: push PC, jump to the fixed vector `addr`.
pub fn rst(cpu: &mut Cpu, mmu: &mut MMU, addr: u16) -> (t: u8)
    requires
        old(mmu).wf(),
    ensures
        final(mmu).wf(),
        *final(cpu) == (Cpu {
            regs: Registers { sp: w16(old(cpu).regs.sp - 2), pc: addr, ..old(cpu).regs },
            ..*old(cpu)
        }),
        push_post(*old(mmu), *final(mmu), old(cpu).regs.sp, old(cpu).regs.pc),
        t == 16,
{
    push(cpu, mmu, Operand16::PC);
    cpu.regs.pc = addr;
    16
}

/// CALL nn: push the address after the operand, jump to nn.
pub fn call(cpu: &mut Cpu, mmu: &mut MMU) -> (t: u8)
    requires
        old(mmu).wf(),
    ensures
        final(mmu).wf(),
        ({
            let (r2, addr) = read16_spec(old(cpu).regs, *old(mmu), Operand16::D16);
            &&& *final(cpu) == (Cpu {
                regs: Registers { sp: w16(r2.sp - 2), pc: addr, ..r2 },
                ..*old(cpu)
            })
            &&& push_post(*old(mmu), *final(mmu), r2.sp, r2.pc)
        }),
        t == 24,
{
    let addr = read16(cpu, mmu, Operand16::D16);
    push(cpu, mmu, Operand16::PC);
    cpu.regs.pc = addr;
    24
}

/// CALL nn taken when flag `f` is set; otherwise the word is skipped.
pub fn call_flag(cpu: &mut Cpu, mmu: &mut MMU, f: Flag) -> (t: u8)
    requires
        old(mmu).wf(),
    ensures
        final(mmu).wf(),
        ({
            let (r2, addr) = read16_spec(old(cpu).regs, *old(mmu), Operand16::D16);
            if old(cpu).regs.flag_spec(f) {
                &&& *final(cpu) == (Cpu {
                    regs: Registers { sp: w16(r2.sp - 2), pc: addr, ..r2 },
                    ..*old(cpu)
                })
                &&& push_post(*old(mmu), *final(mmu), r2.sp, r2.pc)
            } else {
                *final(cpu) == (Cpu { regs: r2, ..*old(cpu) }) && *final(mmu) == *old(mmu)
            }
        }),
        t == if old(cpu).regs.flag_spec(f) { 24u8 } else { 12u8 },
{
    if cpu.regs.flag(f) {
        call(cpu, mmu)
    } else {
        cpu.regs.pc = wrap_add16(cpu.regs.pc, 2);
        12
    }
}

/// CALL nn taken when flag `f` is clear.
pub fn call_n_flag(cpu: &mut Cpu, mmu: &mut MMU, f: Flag) -> (t: u8)
    requires
        old(mmu).wf(),
    ensures
        final(mmu).wf(),
        ({
            let (r2, addr) = read16_spec(old(cpu).regs, *old(mmu), Operand16::D16);
            if !old(cpu).regs.flag_spec(f) {
                &&& *final(cpu) == (Cpu {
                    regs: Registers { sp: w16(r2.sp - 2), pc: addr, ..r2 },
                    ..*old(cpu)
                })
                &&& push_post(*old(mmu), *final(mmu), r2.sp, r2.pc)
            } else {
                *final(cpu) == (Cpu { regs: r2, ..*old(cpu) }) && *final(mmu) == *old(mmu)
            }
        }),
        t == if !old(cpu).regs.flag_spec(f) { 24u8 } else { 12u8 },
{
    if cpu.regs.flag(f) {
        cpu.regs.pc = wrap_add16(cpu.regs.pc, 2);
        12
    } else {
        call(cpu, mmu)
    }
}

/// RET: pop PC.
pub fn ret(cpu: &mut Cpu, mmu: &MMU) -> (t: u8)
    requires
        mmu.wf(),
    ensures
        *final(cpu) == (Cpu {
            regs: Registers {
                sp: w16(old(cpu).regs.sp + 2),
                pc: stack_word(*mmu, old(cpu).regs.sp),
                ..old(cpu).regs
            },
            ..*old(cpu)
        }),
        t == 16,
{
    pop(cpu, mmu, Operand16::PC);
    16
}

/// RET taken when flag `f` is set.
pub fn ret_flag(cpu: &mut Cpu, mmu: &MMU, f: Flag) -> (t: u8)
    requires
        mmu.wf(),
    ensures
        *final(cpu) == if old(cpu).regs.flag_spec(f) {
            Cpu {
                regs: Registers {
                    sp: w16(old(cpu).regs.sp + 2),
                    pc: stack_word(*mmu, old(cpu).regs.sp),
                    ..old(cpu).regs
                },
                ..*old(cpu)
            }
        } else {
            *old(cpu)
        },
        t == if old(cpu).regs.flag_spec(f) { 20u8 } else { 8u8 },
{
    if cpu.regs.flag(f) {
        ret(cpu, mmu) + 4
    } else {
        8
    }
}

/// RET taken when flag `f` is clear.
pub fn ret_n_flag(cpu: &mut Cpu, mmu: &MMU, f: Flag) -> (t: u8)
    requires
        mmu.wf(),
    ensures
        *final(cpu) == if !old(cpu).regs.flag_spec(f) {
            Cpu {
                regs: Registers {
                    sp: w16(old(cpu).regs.sp + 2),
                    pc: stack_word(*mmu, old(cpu).regs.sp),
                    ..old(cpu).regs
                },
                ..*old(cpu)
            }
        } else {
            *old(cpu)
        },
        t == if !old(cpu).regs.flag_spec(f) { 20u8 } else { 8u8 },
{
    if cpu.regs.flag(f) {
        8
    } else {
        ret(cpu, mmu) + 4
    }
}

/// RETI: pop PC and set IME.
pub fn reti(cpu: &mut Cpu, mmu: &MMU) -> (t: u8)
    requires
        mmu.wf(),
    ensures
        *final(cpu) == (Cpu {
            regs: Registers {
                sp: w16(old(cpu).regs.sp + 2),
                pc: stack_word(*mmu, old(cpu).regs.sp),
                ..old(cpu).regs
            },
            i_master: true,
            ..*old(cpu)
        }),
        t == 16,
{
    pop(cpu, mmu, Operand16::PC);
    cpu.i_master = true;
    16
}

/// 16-bit INC; no flag changes.
pub fn inc16(cpu: &mut Cpu, mmu: &MMU, op: Operand16) -> (t: u8)
    requires
        mmu.wf(),
        op != Operand16::D16,
    ensures
        *final(cpu) == (Cpu {
            regs: set16(old(cpu).regs, op, w16(read16_spec(old(cpu).regs, *mmu, op).1 + 1)),
            ..*old(cpu)
        }),
        t == 8,
{
    let val = read16(cpu, mmu, op);
    write16(cpu, op, wrap_add16(val, 1));
    8
}

/// 16-bit DEC; no flag changes.
pub fn dec16(cpu: &mut Cpu, mmu: &MMU, op: Operand16) -> (t: u8)
    requires
        mmu.wf(),
        op != Operand16::D16,
    ensures
        *final(cpu) == (Cpu {
            regs: set16(old(cpu).regs, op, w16(read16_spec(old(cpu).regs, *mmu, op).1 - 1)),
            ..*old(cpu)
        }),
        t == 8,
{
    let val = read16(cpu, mmu, op);
    write16(cpu, op, wrap_sub16(val, 1));
    8
}

/// ADD HL, src: H from bit 11, C from bit 15, Z kept.
pub fn add16(cpu: &mut Cpu, mmu: &MMU, src: Operand16) -> (t: u8)
    requires
        mmu.wf(),
        src != Operand16::D16,
    ensures
        *final(cpu) == (Cpu {
            regs: after_add16(old(cpu).regs, read16_spec(old(cpu).regs, *mmu, src).1),
            ..*old(cpu)
        }),
        t == 8,
{
    let reg_1 = cpu.regs.hl();
    let reg_2 = read16(cpu, mmu, src);
    let s: u32 = reg_1 as u32 + reg_2 as u32;
    cpu.regs.set_flag(Flag::Sub, false);
    cpu.regs.set_flag(Flag::HalfCarry, reg_1 % 4096 + reg_2 % 4096 > 4095);
    cpu.regs.set_flag(Flag::Carry, s > 65535);
    cpu.regs.set_hl((s % 65536) as u16);
    8
}

/// RLA: A rotated left through C; Z cleared.
pub fn rla(cpu: &mut Cpu) -> (t: u8)
    ensures
        *final(cpu) == (Cpu { regs: after_rla(old(cpu).regs), ..*old(cpu) }),
        t == 4,
{
    let val = cpu.regs.a;
    let res = (val % 128) * 2 + if cpu.regs.cf { 1u8 } else { 0u8 };
    cpu.regs.zf = false;
    cpu.regs.nf = false;
    cpu.regs.hf = false;
    cpu.regs.cf = val >= 128;
    cpu.regs.a = res;
    4
}

/// RRA: A rotated right through C; Z cleared.
pub fn rra(cpu: &mut Cpu) -> (t: u8)
    ensures
        *final(cpu) == (Cpu { regs: after_rra(old(cpu).regs), ..*old(cpu) }),
        t == 4,
{
    let val = cpu.regs.a;
    let res = val / 2 + if cpu.regs.cf { 128u8 } else { 0u8 };
    cpu.regs.zf = false;
    cpu.regs.nf = false;
    cpu.regs.hf = false;
    cpu.regs.cf = val % 2 == 1;
    cpu.regs.a = res;
    4
}

/// RLCA: A rotated left, bit 7 into C; Z cleared.
pub fn rlca(cpu: &mut Cpu) -> (t: u8)
    ensures
        *final(cpu) == (Cpu { regs: after_rlca(old(cpu).regs), ..*old(cpu) }),
        t == 4,
{
    let val = cpu.regs.a;
    cpu.regs.zf = false;
    cpu.regs.nf = false;
    cpu.regs.hf = false;
    cpu.regs.cf = val >= 128;
    cpu.regs.a = (val % 128) * 2 + val / 128;
    4
}

/// RRCA: A rotated right, bit 0 into C; Z cleared.
pub fn rrca(cpu: &mut Cpu) -> (t: u8)
    ensures
        *final(cpu) == (Cpu { regs: after_rrca(old(cpu).regs), ..*old(cpu) }),
        t == 4,
{
    let val = cpu.regs.a;
    cpu.regs.zf = false;
    cpu.regs.nf = false;
    cpu.regs.hf = false;
    cpu.regs.cf = val % 2 == 1;
    cpu.regs.a = val / 2 + (val % 2) * 128;
    4
}

/// RLA: A rotated left through C; Z, N, H cleared.
pub open spec fn after_rla(r: Registers) -> Registers {
    Registers { a: ((r.a % 128) * 2 + carry_in(r.cf)) as u8, zf: false, nf: false, hf: false, cf: r.a >= 128, ..r }
}

/// RRA: A rotated right through C; Z, N, H cleared.
pub open spec fn after_rra(r: Registers) -> Registers {
    Registers { a: (r.a / 2 + 128 * carry_in(r.cf)) as u8, zf: false, nf: false, hf: false, cf: r.a % 2 == 1, ..r }
}

/// RLCA: A rotated left, bit 7 into C; Z, N, H cleared.
pub open spec fn after_rlca(r: Registers) -> Registers {
    Registers { a: ((r.a % 128) * 2 + r.a / 128) as u8, zf: false, nf: false, hf: false, cf: r.a >= 128, ..r }
}

/// RRCA: A rotated right, bit 0 into C; Z, N, H cleared.
pub open spec fn after_rrca(r: Registers) -> Registers {
    Registers { a: (r.a / 2 + (r.a % 2) * 128) as u8, zf: false, nf: false, hf: false, cf: r.a % 2 == 1, ..r }
}

/// CPL: A complemented, N and H set.
pub open spec fn after_cpl(r: Registers) -> Registers {
    Registers { a: complement(r.a), nf: true, hf: true, ..r }
}

/// SCF: C set, N and H cleared.
pub open spec fn after_scf(r: Registers) -> Registers {
    Registers { nf: false, hf: false, cf: true, ..r }
}

/// CCF: C complemented, N and H cleared.
pub open spec fn after_ccf(r: Registers) -> Registers {
    Registers { nf: false, hf: false, cf: !r.cf, ..r }
}

/// ADD HL, v: N cleared, H from bit 11, C from bit 15, Z kept.
pub open spec fn after_add16(r: Registers, v: u16) -> Registers {
    let hl = r.hl_spec() as int;
    Registers { nf: false, hf: hl % 4096 + v % 4096 > 4095, cf: hl + v > 65535, ..r }.with_hl(w16(hl + v))
}

/// JR: PC moves by the signed byte after the opcode.
pub open spec fn jr_target(r: Registers, m: MMU) -> Registers {
    let (r2, v) = operand_read(r, m, Operand8::D8);
    Registers { pc: w16(r2.pc + sext(v)), ..r2 }
}

/// The complement of a byte.
pub open spec fn complement(a: u8) -> u8 {
    (255 - a) as u8
}

/// CPL: A complemented, N and H set.
pub fn cpl(cpu: &mut Cpu) -> (t: u8)
    ensures
        *final(cpu) == (Cpu { regs: after_cpl(old(cpu).regs), ..*old(cpu) }),
        t == 4,
{
    cpu.regs.a = 255 - cpu.regs.a;
    cpu.regs.set_flag(Flag::Sub, true);
    cpu.regs.set_flag(Flag::HalfCarry, true);
    4
}

/// SCF: C set, N and H cleared.
pub fn scf(cpu: &mut Cpu) -> (t: u8)
    ensures
        *final(cpu) == (Cpu { regs: after_scf(old(cpu).regs), ..*old(cpu) }),
        t == 4,
{
    cpu.regs.set_flag(Flag::Sub, false);
    cpu.regs.set_flag(Flag::HalfCarry, false);
    cpu.regs.set_flag(Flag::Carry, true);
    4
}

/// CCF: C complemented, N and H cleared.
pub fn ccf(cpu: &mut Cpu) -> (t: u8)
    ensures
        *final(cpu) == (Cpu { regs: after_ccf(old(cpu).regs), ..*old(cpu) }),
        t == 4,
{
    let c = cpu.regs.flag(Flag::Carry);
    cpu.regs.set_flag(Flag::Sub, false);
    cpu.regs.set_flag(Flag::HalfCarry, false);
    cpu.regs.set_flag(Flag::Carry, !c);
    4
}

/// `x + k` modulo 2^8.
fn wrap_add8(x: u8, k: u8) -> (r: u8)
    ensures
        r == w8(x + k),
{
    ((x as u16 + k as u16) % 256) as u8
}

/// `x - k` modulo 2^8.
fn wrap_sub8(x: u8, k: u8) -> (r: u8)
    ensures
        r == w8(x - k),
{
    ((x as u16 + 256 - k as u16) % 256) as u8
}

/// DAA: decimal adjustment of A after a BCD addition or subtraction.
pub fn daa(cpu: &mut Cpu) -> (t: u8)
    ensures
        *final(cpu) == (Cpu { regs: after_daa(old(cpu).regs), ..*old(cpu) }),
        t == 4,
{
    let mut reg_a = cpu.regs.a;
    if cpu.regs.nf {
        if cpu.regs.cf {
            reg_a = wrap_sub8(reg_a, 0x60);
        }
        if cpu.regs.hf {
            reg_a = wrap_sub8(reg_a, 0x06);
        }
    } else {
        if reg_a > 0x99 || cpu.regs.cf {
            reg_a = wrap_add8(reg_a, 0x60);
            cpu.regs.cf = true;
        }
        if reg_a % 16 > 9 || cpu.regs.hf {
            reg_a = wrap_add8(reg_a, 0x06);
        }
    }
    cpu.regs.a = reg_a;
    cpu.regs.zf = reg_a == 0;
    cpu.regs.hf = false;
    4
}

/// SP plus the signed byte after the opcode, with the flags of an 8-bit addition of
/// SP's low byte and that byte.
pub open spec fn sp_offset_regs(r: Registers, m: MMU) -> (Registers, u16) {
    let (r2, d) = operand_read(r, m, Operand8::D8);
    let s = add8((r.sp as int % 256) as u8, d);
    (Registers { zf: false, nf: false, hf: s.1, cf: s.2, ..r2 }, w16(r.sp + sext(d)))
}

fn sp_plus_r8(cpu: &mut Cpu, mmu: &MMU) -> (res: u16)
    requires
        mmu.wf(),
    ensures
        *final(cpu) == (Cpu { regs: sp_offset_regs(old(cpu).regs, *mmu).0, ..*old(cpu) }),
        res == sp_offset_regs(old(cpu).regs, *mmu).1,
{
    let sp = cpu.regs.sp;
    let d8 = read8(cpu, mmu, Operand8::D8);
    let (_, hcarry, carry) = add8_carry((sp % 256) as u8, d8);
    cpu.regs.zf = false;
    cpu.regs.nf = false;
    cpu.regs.hf = hcarry;
    cpu.regs.cf = carry;
    ((sp as u32 + d8 as u32 + if d8 >= 128 { 65280u32 } else { 0u32 }) % 65536) as u16
}

/// LD HL, SP+r8.
pub fn ld_hl_spr8(cpu: &mut Cpu, mmu: &MMU) -> (t: u8)
    requires
        mmu.wf(),
    ensures
        *final(cpu) == (Cpu {
            regs: sp_offset_regs(old(cpu).regs, *mmu).0.with_hl(sp_offset_regs(old(cpu).regs, *mmu).1),
            ..*old(cpu)
        }),
        t == 12,
{
    let res = sp_plus_r8(cpu, mmu);
    cpu.regs.set_hl(res);
    12
}

/// ADD SP, r8.
pub fn add_sp_r8(cpu: &mut Cpu, mmu: &MMU) -> (t: u8)
    requires
        mmu.wf(),
    ensures
        *final(cpu) == (Cpu {
            regs: Registers {
                sp: sp_offset_regs(old(cpu).regs, *mmu).1,
                ..sp_offset_regs(old(cpu).regs, *mmu).0
            },
            ..*old(cpu)
        }),
        t == 16,
{
    let res = sp_plus_r8(cpu, mmu);
    cpu.regs.sp = res;
    16
}

/// LD (nn),SP takes (r, m) to (r2, m2): the low byte of SP goes to nn, then the high
/// byte to nn+1.
pub open spec fn store_sp_post(r: Registers, m: MMU, r2: Registers, m2: MMU) -> bool {
    let (rn, addr) = read16_spec(r, m, Operand16::D16);
    &&& r2 == rn
    &&& exists|mid: MMU|
        #[trigger] MMU::write_post(m, mid, addr, (r.sp as int % 256) as u8) && MMU::write_post(
            mid,
            m2,
            w16(addr + 1),
            (r.sp as int / 256) as u8,
        )
}

/// LD (nn), SP: low byte of SP at nn, high byte at nn+1.
pub fn ld_a16_sp(cpu: &mut Cpu, mmu: &mut MMU) -> (t: u8)
    requires
        old(mmu).wf(),
    ensures
        final(mmu).wf(),
        store_sp_post(old(cpu).regs, *old(mmu), final(cpu).regs, *final(mmu)),
        final(cpu).halt == old(cpu).halt && final(cpu).i_master == old(cpu).i_master,
        t == 20,
{
    let sp = cpu.regs.sp;
    let addr = read16(cpu, mmu, Operand16::D16);
    mmu.write(addr, (sp % 256) as u8);
    let ghost mid = *mmu;
    mmu.write(wrap_add16(addr, 1), (sp / 256) as u8);
    assert(MMU::write_post(mid, *mmu, w16(addr + 1), (sp as int / 256) as u8));
    20
}

/// CPL applied twice gives A back.
pub proof fn lemma_cpl_twice(a: u8)
    ensures
        complement(complement(a)) == a,
        complement(a) == !a,
{
    assert(complement(a) == !a) by (bit_vector);
}

/// A carry flag as 0 or 1.
pub open spec fn carry_in(cin: bool) -> int {
    if cin { 1 } else { 0 }
}

/// ADD, ADC, SUB and SBC wrap modulo 256, and their H flag is the carry (or borrow)
/// out of the low nibbles: `(a & 0xF) + (b & 0xF) + cin > 0xF` for additions,
/// `(a & 0xF) < (b & 0xF) + cin` for subtractions.
pub proof fn lemma_alu_flags(a: u8, b: u8, cin: bool)
    ensures
        adc8(a, b, cin).0 as int == (a + b + carry_in(cin)) % 256,
        sbc8(a, b, cin).0 as int == (a - b - carry_in(cin)) % 256,
        adc8(a, b, cin).1 == ((a & 0xF) as int + (b & 0xF) as int + carry_in(cin) > 0xF),
        sbc8(a, b, cin).1 == (((a & 0xF) as int) < (b & 0xF) as int + carry_in(cin)),
        adc8(a, b, cin).2 == (a + b + carry_in(cin) > 0xFF),
        sbc8(a, b, cin).2 == (a < b + carry_in(cin)),
        add8(a, b) == adc8(a, b, false),
        sub8(a, b) == sbc8(a, b, false),
{
    assert(a & 0xF == a % 16 && b & 0xF == b % 16) by (bit_vector);
}

/// The registers after POP AF from the stack that a PUSH AF from `r` left in `m2`.
pub open spec fn popped_af(r: Registers, m2: MMU) -> Registers {
    Registers { sp: w16(w16(r.sp - 2) + 2), ..r }.with_af(stack_word(m2, w16(r.sp - 2)))
}

/// POP AF after PUSH AF, with the stack in RAM, gives back AF and SP, and F's low
/// nibble stays clear.
pub proof fn lemma_push_pop_af(m: MMU, m2: MMU, r: Registers)
    requires
        m.wf(),
        push_post(m, m2, r.sp, r.af_spec()),
        crate::mmu::is_ram_addr(w16(r.sp - 1)),
        crate::mmu::is_ram_addr(w16(r.sp - 2)),
    ensures
        popped_af(r, m2) == r,
        popped_af(r, m2).f_spec() % 16 == 0,
{
    let v = r.af_spec();
    let mid = choose|mid: MMU|
        #[trigger] MMU::write_post(m, mid, w16(r.sp - 1), (v as int / 256) as u8) && MMU::write_post(
            mid,
            m2,
            w16(r.sp - 2),
            (v as int % 256) as u8,
        );
    let hi_addr = w16(r.sp - 1);
    let lo_addr = w16(r.sp - 2);
    crate::mmu::lemma_ram_round_trip(m, mid, hi_addr, (v as int / 256) as u8);
    assert(mid.wf()) by {
        assert(mid == (MMU { wram: mid.wram, ..m }) || mid == (MMU { vram: mid.vram, ..m }) || mid == (
        MMU { hram: mid.hram, ..m }));
    }
    crate::mmu::lemma_ram_round_trip(mid, m2, lo_addr, (v as int % 256) as u8);
    crate::mmu::lemma_other_write_frame(mid, m2, lo_addr, (v as int % 256) as u8, hi_addr);
    assert(w16(lo_addr + 1) == hi_addr);
    assert(w16(lo_addr + 2) == r.sp);
    let f = r.f_spec();
    assert(r.with_af(v) == r) by {
        assert(v as int % 256 == f as int);
        assert(v as int / 256 == r.a as int);
    }
    crate::regs::lemma_f_low_nibble(r, v);
}

} // verus!
