use vstd::prelude::*;
use crate::bits::{bit_of, get_bit, set_bit, with_bit};
use crate::cpu::{Cpu, Operand8, cycles8, is_reg8, operand_read, overhead8, read8, store8_post, wrap_add16, write8};
use crate::mmu::{MMU, is_ram_addr, lemma_ram_round_trip};
use crate::ops::is_rw8;
use crate::regs::{Registers, w16};

verus! {

pub open spec fn rlc_v(v: u8) -> u8 {
    ((v % 128) * 2 + v / 128) as u8
}

pub open spec fn rrc_v(v: u8) -> u8 {
    (v / 2 + (v % 2) * 128) as u8
}

pub open spec fn rl_v(v: u8, c: bool) -> u8 {
    ((v % 128) * 2 + if c { 1int } else { 0 }) as u8
}

pub open spec fn rr_v(v: u8, c: bool) -> u8 {
    (v / 2 + if c { 128int } else { 0 }) as u8
}

pub open spec fn sla_v(v: u8) -> u8 {
    ((v % 128) * 2) as u8
}

pub open spec fn sra_v(v: u8) -> u8 {
    (v / 2 + (v / 128) * 128) as u8
}

pub open spec fn swap_v(v: u8) -> u8 {
    ((v % 16) * 16 + v / 16) as u8
}

pub open spec fn srl_v(v: u8) -> u8 {
    v / 2
}

/// Carry out of a left shift or rotation.
pub open spec fn out_left(v: u8) -> bool {
    v >= 128
}

/// Carry out of a right shift or rotation.
pub open spec fn out_right(v: u8) -> bool {
    v % 2 == 1
}

/// A shift or rotation of operand `op` wrote `res` with carry `carry`: Z from the
/// result, N and H cleared.
pub open spec fn shift_post(
    r: Registers,
    m: MMU,
    r2: Registers,
    m2: MMU,
    op: Operand8,
    res: u8,
    carry: bool,
) -> bool {
    store8_post(Registers { zf: res == 0, nf: false, hf: false, cf: carry, ..r }, m, r2, m2, op, res)
}

/// The byte that a read-modify-write instruction on `op` starts from.
pub open spec fn rw_value(cpu: Cpu, m: MMU, op: Operand8) -> u8 {
    operand_read(cpu.regs, m, op).1
}

fn finish_shift(cpu: &mut Cpu, mmu: &mut MMU, op: Operand8, res: u8, carry: bool) -> (t: u8)
    requires
        old(mmu).wf(),
        is_rw8(op),
    ensures
        final(mmu).wf(),
        shift_post(old(cpu).regs, *old(mmu), final(cpu).regs, *final(mmu), op, res, carry),
        final(cpu).halt == old(cpu).halt && final(cpu).i_master == old(cpu).i_master,
        t == 8 + overhead8(op),
{
    cpu.regs.zf = res == 0;
    cpu.regs.nf = false;
    cpu.regs.hf = false;
    cpu.regs.cf = carry;
    write8(cpu, mmu, op, res);
    8 + cycles8(op)
}

pub fn rlc(cpu: &mut Cpu, mmu: &mut MMU, op: Operand8) -> (t: u8)
    requires
        old(mmu).wf(),
        is_rw8(op),
    ensures
        final(mmu).wf(),
        ({
            let v = rw_value(*old(cpu), *old(mmu), op);
            shift_post(old(cpu).regs, *old(mmu), final(cpu).regs, *final(mmu), op, rlc_v(v), out_left(v))
        }),
        final(cpu).halt == old(cpu).halt && final(cpu).i_master == old(cpu).i_master,
        t == 8 + overhead8(op),
{
    let val = read8(cpu, mmu, op);
    finish_shift(cpu, mmu, op, (val % 128) * 2 + val / 128, val >= 128)
}

pub fn rrc(cpu: &mut Cpu, mmu: &mut MMU, op: Operand8) -> (t: u8)
    requires
        old(mmu).wf(),
        is_rw8(op),
    ensures
        final(mmu).wf(),
        ({
            let v = rw_value(*old(cpu), *old(mmu), op);
            shift_post(old(cpu).regs, *old(mmu), final(cpu).regs, *final(mmu), op, rrc_v(v), out_right(v))
        }),
        final(cpu).halt == old(cpu).halt && final(cpu).i_master == old(cpu).i_master,
        t == 8 + overhead8(op),
{
    let val = read8(cpu, mmu, op);
    finish_shift(cpu, mmu, op, val / 2 + (val % 2) * 128, val % 2 == 1)
}

pub fn rl(cpu: &mut Cpu, mmu: &mut MMU, op: Operand8) -> (t: u8)
    requires
        old(mmu).wf(),
        is_rw8(op),
    ensures
        final(mmu).wf(),
        ({
            let v = rw_value(*old(cpu), *old(mmu), op);
            shift_post(
                old(cpu).regs,
                *old(mmu),
                final(cpu).regs,
                *final(mmu),
                op,
                rl_v(v, old(cpu).regs.cf),
                out_left(v),
            )
        }),
        final(cpu).halt == old(cpu).halt && final(cpu).i_master == old(cpu).i_master,
        t == 8 + overhead8(op),
{
    let c = cpu.regs.cf;
    let val = read8(cpu, mmu, op);
    finish_shift(cpu, mmu, op, (val % 128) * 2 + if c { 1u8 } else { 0u8 }, val >= 128)
}

pub fn rr(cpu: &mut Cpu, mmu: &mut MMU, op: Operand8) -> (t: u8)
    requires
        old(mmu).wf(),
        is_rw8(op),
    ensures
        final(mmu).wf(),
        ({
            let v = rw_value(*old(cpu), *old(mmu), op);
            shift_post(
                old(cpu).regs,
                *old(mmu),
                final(cpu).regs,
                *final(mmu),
                op,
                rr_v(v, old(cpu).regs.cf),
                out_right(v),
            )
        }),
        final(cpu).halt == old(cpu).halt && final(cpu).i_master == old(cpu).i_master,
        t == 8 + overhead8(op),
{
    let c = cpu.regs.cf;
    let val = read8(cpu, mmu, op);
    finish_shift(cpu, mmu, op, val / 2 + if c { 128u8 } else { 0u8 }, val % 2 == 1)
}

pub fn sla(cpu: &mut Cpu, mmu: &mut MMU, op: Operand8) -> (t: u8)
    requires
        old(mmu).wf(),
        is_rw8(op),
    ensures
        final(mmu).wf(),
        ({
            let v = rw_value(*old(cpu), *old(mmu), op);
            shift_post(old(cpu).regs, *old(mmu), final(cpu).regs, *final(mmu), op, sla_v(v), out_left(v))
        }),
        final(cpu).halt == old(cpu).halt && final(cpu).i_master == old(cpu).i_master,
        t == 8 + overhead8(op),
{
    let val = read8(cpu, mmu, op);
    finish_shift(cpu, mmu, op, (val % 128) * 2, val >= 128)
}

pub fn sra(cpu: &mut Cpu, mmu: &mut MMU, op: Operand8) -> (t: u8)
    requires
        old(mmu).wf(),
        is_rw8(op),
    ensures
        final(mmu).wf(),
        ({
            let v = rw_value(*old(cpu), *old(mmu), op);
            shift_post(old(cpu).regs, *old(mmu), final(cpu).regs, *final(mmu), op, sra_v(v), out_right(v))
        }),
        final(cpu).halt == old(cpu).halt && final(cpu).i_master == old(cpu).i_master,
        t == 8 + overhead8(op),
{
    let val = read8(cpu, mmu, op);
    finish_shift(cpu, mmu, op, val / 2 + (val / 128) * 128, val % 2 == 1)
}

pub fn swap(cpu: &mut Cpu, mmu: &mut MMU, op: Operand8) -> (t: u8)
    requires
        old(mmu).wf(),
        is_rw8(op),
    ensures
        final(mmu).wf(),
        ({
            let v = rw_value(*old(cpu), *old(mmu), op);
            shift_post(old(cpu).regs, *old(mmu), final(cpu).regs, *final(mmu), op, swap_v(v), false)
        }),
        final(cpu).halt == old(cpu).halt && final(cpu).i_master == old(cpu).i_master,
        t == 8 + overhead8(op),
{
    let val = read8(cpu, mmu, op);
    finish_shift(cpu, mmu, op, (val % 16) * 16 + val / 16, false)
}

pub fn srl(cpu: &mut Cpu, mmu: &mut MMU, op: Operand8) -> (t: u8)
    requires
        old(mmu).wf(),
        is_rw8(op),
    ensures
        final(mmu).wf(),
        ({
            let v = rw_value(*old(cpu), *old(mmu), op);
            shift_post(old(cpu).regs, *old(mmu), final(cpu).regs, *final(mmu), op, srl_v(v), out_right(v))
        }),
        final(cpu).halt == old(cpu).halt && final(cpu).i_master == old(cpu).i_master,
        t == 8 + overhead8(op),
{
    let val = read8(cpu, mmu, op);
    finish_shift(cpu, mmu, op, val / 2, val % 2 == 1)
}

/// BIT b, op: Z set when the bit is clear, N cleared, H set, C kept.
pub fn bit(cpu: &mut Cpu, mmu: &MMU, b: u8, op: Operand8) -> (t: u8)
    requires
        mmu.wf(),
        is_rw8(op),
        b < 8,
    ensures
        *final(cpu) == (Cpu {
            regs: Registers {
                zf: !bit_of(rw_value(*old(cpu), *mmu, op), b),
                nf: false,
                hf: true,
                ..old(cpu).regs
            },
            ..*old(cpu)
        }),
        t == 8 + overhead8(op),
{
    let v = read8(cpu, mmu, op);
    cpu.regs.zf = !get_bit(v, b);
    cpu.regs.nf = false;
    cpu.regs.hf = true;
    8 + cycles8(op)
}

/// RES b, op: clears one bit, no flag changes.
pub fn res(cpu: &mut Cpu, mmu: &mut MMU, b: u8, op: Operand8) -> (t: u8)
    requires
        old(mmu).wf(),
        is_rw8(op),
        b < 8,
    ensures
        final(mmu).wf(),
        store8_post(
            old(cpu).regs,
            *old(mmu),
            final(cpu).regs,
            *final(mmu),
            op,
            with_bit(rw_value(*old(cpu), *old(mmu), op), b, false),
        ),
        final(cpu).halt == old(cpu).halt && final(cpu).i_master == old(cpu).i_master,
        t == 8 + overhead8(op),
{
    let mut v = read8(cpu, mmu, op);
    set_bit(&mut v, b, false);
    write8(cpu, mmu, op, v);
    8 + cycles8(op)
}

/// SET b, op: sets one bit, no flag changes.
pub fn set(cpu: &mut Cpu, mmu: &mut MMU, b: u8, op: Operand8) -> (t: u8)
    requires
        old(mmu).wf(),
        is_rw8(op),
        b < 8,
    ensures
        final(mmu).wf(),
        store8_post(
            old(cpu).regs,
            *old(mmu),
            final(cpu).regs,
            *final(mmu),
            op,
            with_bit(rw_value(*old(cpu), *old(mmu), op), b, true),
        ),
        final(cpu).halt == old(cpu).halt && final(cpu).i_master == old(cpu).i_master,
        t == 8 + overhead8(op),
{
    let mut v = read8(cpu, mmu, op);
    set_bit(&mut v, b, true);
    write8(cpu, mmu, op, v);
    8 + cycles8(op)
}

/// The operand that the low three bits of an opcode name: B, C, D, E, H, L, (HL), A.
pub open spec fn reg_operand_spec(k: u8) -> Operand8 {
    if k == 0 {
        Operand8::B
    } else if k == 1 {
        Operand8::C
    } else if k == 2 {
        Operand8::D
    } else if k == 3 {
        Operand8::E
    } else if k == 4 {
        Operand8::H
    } else if k == 5 {
        Operand8::L
    } else if k == 6 {
        Operand8::MemHL
    } else {
        Operand8::A
    }
}

pub fn reg_operand(k: u8) -> (r: Operand8)
    ensures
        r == reg_operand_spec(k),
        is_rw8(r),
{
    if k == 0 {
        Operand8::B
    } else if k == 1 {
        Operand8::C
    } else if k == 2 {
        Operand8::D
    } else if k == 3 {
        Operand8::E
    } else if k == 4 {
        Operand8::H
    } else if k == 5 {
        Operand8::L
    } else if k == 6 {
        Operand8::MemHL
    } else {
        Operand8::A
    }
}

/// The byte that shift or rotation `y` (RLC, RRC, RL, RR, SLA, SRA, SWAP, SRL) makes of `v`.
pub open spec fn shift_result(y: u8, v: u8, c: bool) -> u8 {
    if y == 0 {
        rlc_v(v)
    } else if y == 1 {
        rrc_v(v)
    } else if y == 2 {
        rl_v(v, c)
    } else if y == 3 {
        rr_v(v, c)
    } else if y == 4 {
        sla_v(v)
    } else if y == 5 {
        sra_v(v)
    } else if y == 6 {
        swap_v(v)
    } else {
        srl_v(v)
    }
}

/// The carry that shift or rotation `y` leaves.
pub open spec fn shift_carry(y: u8, v: u8) -> bool {
    if y == 6 {
        false
    } else if y == 0 || y == 2 || y == 4 {
        out_left(v)
    } else {
        out_right(v)
    }
}

/// What the CB-prefixed opcode `op` does, from registers `r` (PC already past the
/// opcode) and bus `m` to `r2` and `m2`.
pub open spec fn cb_post(op: u8, r: Registers, m: MMU, r2: Registers, m2: MMU) -> bool {
    let target = reg_operand_spec(op % 8);
    let y = op / 8 % 8;
    let v = operand_read(r, m, target).1;
    if op < 0x40 {
        shift_post(r, m, r2, m2, target, shift_result(y, v, r.cf), shift_carry(y, v))
    } else if op < 0x80 {
        r2 == (Registers { zf: !bit_of(v, y), nf: false, hf: true, ..r }) && m2 == m
    } else if op < 0xC0 {
        store8_post(r, m, r2, m2, target, with_bit(v, y, false))
    } else {
        store8_post(r, m, r2, m2, target, with_bit(v, y, true))
    }
}

/// Runs shift or rotation `y` on `op`.
fn exec_shift(cpu: &mut Cpu, mmu: &mut MMU, y: u8, op: Operand8) -> (t: u8)
    requires
        old(mmu).wf(),
        is_rw8(op),
    ensures
        final(mmu).wf(),
        ({
            let v = rw_value(*old(cpu), *old(mmu), op);
            shift_post(
                old(cpu).regs,
                *old(mmu),
                final(cpu).regs,
                *final(mmu),
                op,
                shift_result(y, v, old(cpu).regs.cf),
                shift_carry(y, v),
            )
        }),
        final(cpu).halt == old(cpu).halt && final(cpu).i_master == old(cpu).i_master,
        t == 8 + overhead8(op),
{
    if y == 0 {
        rlc(cpu, mmu, op)
    } else if y == 1 {
        rrc(cpu, mmu, op)
    } else if y == 2 {
        rl(cpu, mmu, op)
    } else if y == 3 {
        rr(cpu, mmu, op)
    } else if y == 4 {
        sla(cpu, mmu, op)
    } else if y == 5 {
        sra(cpu, mmu, op)
    } else if y == 6 {
        swap(cpu, mmu, op)
    } else {
        srl(cpu, mmu, op)
    }
}

/// Runs the CB-prefixed instruction whose opcode is at PC. Bits 7..6 of the opcode pick
/// the group (shifts, BIT, RES, SET), bits 5..3 the shift or the bit, bits 2..0 the operand.
pub fn exec_next(cpu: &mut Cpu, mmu: &mut MMU) -> (t: u8)
    requires
        old(mmu).wf(),
    ensures
        final(mmu).wf(),
        final(cpu).halt == old(cpu).halt && final(cpu).i_master == old(cpu).i_master,
        cb_post(
            old(mmu).read_spec(old(cpu).regs.pc),
            Registers { pc: w16(old(cpu).regs.pc + 1), ..old(cpu).regs },
            *old(mmu),
            final(cpu).regs,
            *final(mmu),
        ),
        final(cpu).regs.pc == w16(old(cpu).regs.pc + 1),
        t == 8 + overhead8(reg_operand_spec(old(mmu).read_spec(old(cpu).regs.pc) % 8)),
{
    let pc = cpu.regs.pc;
    let op_code = mmu.read(pc);
    cpu.regs.pc = wrap_add16(pc, 1);
    let target = reg_operand(op_code % 8);
    let y: u8 = op_code / 8 % 8;
    if op_code < 0x40 {
        exec_shift(cpu, mmu, y, target)
    } else if op_code < 0x80 {
        bit(cpu, mmu, y, target)
    } else if op_code < 0xC0 {
        res(cpu, mmu, y, target)
    } else {
        set(cpu, mmu, y, target)
    }
}

/// SWAP applied twice gives the byte back.
pub proof fn lemma_swap_twice(v: u8)
    ensures
        swap_v(swap_v(v)) == v,
{
}

/// RRC undoes RLC and RLC undoes RRC; RR with the carry that RL produced undoes RL,
/// giving back both the byte and the carry, and the same holds the other way round.
pub proof fn lemma_rotations_invert(v: u8, c: bool)
    ensures
        rrc_v(rlc_v(v)) == v,
        rlc_v(rrc_v(v)) == v,
        out_right(rlc_v(v)) == out_left(v),
        rr_v(rl_v(v, c), out_left(v)) == v,
        out_right(rl_v(v, c)) == c,
        rl_v(rr_v(v, c), out_right(v)) == v,
        out_left(rr_v(v, c)) == c,
{
}

/// Operands whose written value reads back: registers, and (HL) when HL points into
/// work RAM, high RAM or video RAM.
pub open spec fn reads_back(r: Registers, op: Operand8) -> bool {
    is_reg8(op) || (op == Operand8::MemHL && is_ram_addr(r.hl_spec()))
}

/// After a shift or rotation of an operand that reads back, the operand holds the
/// result, the flags are those of the result, and HL has not moved.
pub proof fn lemma_shift_reads_back(
    r: Registers,
    m: MMU,
    r2: Registers,
    m2: MMU,
    op: Operand8,
    res: u8,
    carry: bool,
)
    requires
        m.wf(),
        reads_back(r, op),
        shift_post(r, m, r2, m2, op, res, carry),
    ensures
        m2.wf(),
        reads_back(r2, op),
        operand_read(r2, m2, op).1 == res,
        r2.zf == (res == 0) && !r2.nf && !r2.hf && r2.cf == carry,
{
    if op == Operand8::MemHL {
        let r1 = Registers { zf: res == 0, nf: false, hf: false, cf: carry, ..r };
        let a = r.hl_spec();
        assert(r1.hl_spec() == a);
        lemma_ram_round_trip(m, m2, a, res);
        assert(m2.wf()) by {
            assert(m2 == (MMU { wram: m2.wram, ..m }) || m2 == (MMU { vram: m2.vram, ..m }) || m2 == (
            MMU { hram: m2.hram, ..m }));
        }
    }
}

/// SWAP applied twice to a register, or to (HL) in RAM, gives the byte back.
pub proof fn lemma_swap_twice_on_operand(
    r: Registers,
    m: MMU,
    r2: Registers,
    m2: MMU,
    r3: Registers,
    m3: MMU,
    op: Operand8,
)
    requires
        m.wf(),
        reads_back(r, op),
        shift_post(r, m, r2, m2, op, swap_v(operand_read(r, m, op).1), false),
        shift_post(r2, m2, r3, m3, op, swap_v(operand_read(r2, m2, op).1), false),
    ensures
        operand_read(r3, m3, op).1 == operand_read(r, m, op).1,
{
    let v = operand_read(r, m, op).1;
    lemma_shift_reads_back(r, m, r2, m2, op, swap_v(v), false);
    lemma_shift_reads_back(r2, m2, r3, m3, op, swap_v(swap_v(v)), false);
    lemma_swap_twice(v);
}

/// On a register, or on (HL) in RAM: RRC after RLC gives the byte back, and so does RLC
/// after RRC; RR after RL gives back both the byte and the carry that RL started from,
/// and so does RL after RR.
pub proof fn lemma_rotations_invert_on_operand(
    r: Registers,
    m: MMU,
    r2: Registers,
    m2: MMU,
    r3: Registers,
    m3: MMU,
    op: Operand8,
    first: u8,
)
    requires
        m.wf(),
        reads_back(r, op),
        first < 4,
        shift_post(
            r,
            m,
            r2,
            m2,
            op,
            shift_result(first, operand_read(r, m, op).1, r.cf),
            shift_carry(first, operand_read(r, m, op).1),
        ),
        ({
            let second = if first % 2 == 0 { (first + 1) as u8 } else { (first - 1) as u8 };
            let v2 = operand_read(r2, m2, op).1;
            shift_post(r2, m2, r3, m3, op, shift_result(second, v2, r2.cf), shift_carry(second, v2))
        }),
    ensures
        operand_read(r3, m3, op).1 == operand_read(r, m, op).1,
        first >= 2 ==> r3.cf == r.cf,
{
    let v = operand_read(r, m, op).1;
    let second = if first % 2 == 0 { (first + 1) as u8 } else { (first - 1) as u8 };
    let w = shift_result(first, v, r.cf);
    lemma_shift_reads_back(r, m, r2, m2, op, w, shift_carry(first, v));
    lemma_shift_reads_back(r2, m2, r3, m3, op, shift_result(second, w, r2.cf), shift_carry(second, w));
    lemma_rotations_invert(v, r.cf);
}

} // verus!
