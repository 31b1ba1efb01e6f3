use vstd::prelude::*;
use crate::bits::{bit_of, get_bit, set_bit, with_bit};
use crate::cb::{self, reg_operand, reg_operand_spec};
use crate::cpu::{Cpu, Operand16, Operand8, operand_read, overhead8, read16_spec, set16, store8_post, wrap_add16};
use crate::interrupt::Interrupt;
use crate::mmu::MMU;
use crate::ops::{
    adc, add16, add_sp_r8, after_add, after_add16, after_and, after_ccf, after_cp, after_cpl,
    after_daa, after_or, after_rla, after_rlca, after_rra, after_rrca, after_scf, after_sub,
    after_xor, and, call, call_flag, call_n_flag, ccf, cp, cpl, daa, dec, dec16, dec_post,
    disable_interrupts, enable_interrupts, halt, inc, inc16, inc_post, jp, jp_flag, jp_n_flag,
    jr, jr_flag, jr_n_flag, jr_target, ld, ld_16, ld_a16_sp, ld_hl_spr8, nop, or, pop, pop_af,
    push, push_post, ret, ret_flag, ret_n_flag, reti, rla, rlca, rra, rrca, rst, sbc, scf,
    sp_offset_regs, stack_word, store_sp_post, xor,
};
use crate::regs::{Flag, Registers, w16};

verus! {

/// Whether interrupt `k` is both requested and enabled.
pub open spec fn pending(ie: u8, iflag: u8, k: u8) -> bool {
    bit_of(ie, k) && bit_of(iflag, k)
}

/// The interrupt that is serviced: the lowest-numbered pending one among the five, if
/// IME is set.
pub open spec fn interrupt_choice(ime: bool, ie: u8, iflag: u8) -> Option<u8> {
    if !ime {
        None
    } else if pending(ie, iflag, 0) {
        Some(0u8)
    } else if pending(ie, iflag, 1) {
        Some(1u8)
    } else if pending(ie, iflag, 2) {
        Some(2u8)
    } else if pending(ie, iflag, 3) {
        Some(3u8)
    } else if pending(ie, iflag, 4) {
        Some(4u8)
    } else {
        None
    }
}

/// With IF bits 0..=4 all clear, no interrupt is requested.
pub proof fn lemma_no_request(iflag: u8)
    requires
        iflag % 32 == 0,
    ensures
        forall|k: u8| k < 5 ==> !#[trigger] bit_of(iflag, k),
{
    assert(forall|k: u8| k < 5 && iflag % 32 == 0 ==> !#[trigger] bit_of(iflag, k)) by (bit_vector);
}

/// The handler address of interrupt `k`.
pub open spec fn vector(k: u8) -> u16 {
    (0x40 + 8 * k) as u16
}

/// The register file right after boot (no boot ROM is run).
pub open spec fn post_boot_regs() -> Registers {
    Registers {
        a: 0x11, b: 0x00, c: 0x12, d: 0x00, e: 0xD8, h: 0x01, l: 0x4D,
        sp: 0xFFFE, pc: 0x0100,
        zf: true, nf: false, hf: true, cf: true,
    }
}

/// The I/O register values that the boot ROM leaves: (address, value).
pub open spec fn post_boot_io(addr: u16) -> Option<u8> {
    if addr == 0xFF50 {
        Some(0x01u8)
    }     else if addr == 0xFF05 {
        Some(0x00u8)
    }     else if addr == 0xFF06 {
        Some(0x00u8)
    }     else if addr == 0xFF07 {
        Some(0x00u8)
    }     else if addr == 0xFF10 {
        Some(0x80u8)
    }     else if addr == 0xFF11 {
        Some(0xBFu8)
    }     else if addr == 0xFF12 {
        Some(0xF3u8)
    }     else if addr == 0xFF14 {
        Some(0xBFu8)
    }     else if addr == 0xFF16 {
        Some(0x3Fu8)
    }     else if addr == 0xFF17 {
        Some(0x00u8)
    }     else if addr == 0xFF19 {
        Some(0xBFu8)
    }     else if addr == 0xFF1A {
        Some(0x7Fu8)
    }     else if addr == 0xFF1B {
        Some(0xFFu8)
    }     else if addr == 0xFF1C {
        Some(0x9Fu8)
    }     else if addr == 0xFF1E {
        Some(0xBFu8)
    }     else if addr == 0xFF20 {
        Some(0xFFu8)
    }     else if addr == 0xFF21 {
        Some(0x00u8)
    }     else if addr == 0xFF22 {
        Some(0x00u8)
    }     else if addr == 0xFF23 {
        Some(0xBFu8)
    }     else if addr == 0xFF24 {
        Some(0x77u8)
    }     else if addr == 0xFF25 {
        Some(0xF3u8)
    }     else if addr == 0xFF26 {
        Some(0xF1u8)
    }     else if addr == 0xFF42 {
        Some(0x00u8)
    }     else if addr == 0xFF43 {
        Some(0x00u8)
    }     else if addr == 0xFF45 {
        Some(0x00u8)
    }     else if addr == 0xFF48 {
        Some(0xFFu8)
    }     else if addr == 0xFF49 {
        Some(0xFFu8)
    }     else if addr == 0xFF4A {
        Some(0x00u8)
    }     else if addr == 0xFF4B {
        Some(0x00u8)
    }     else if addr == 0xFF40 {
        Some(0x91u8)
    }     else if addr == 0xFF47 {
        Some(0xFCu8)
    }     else if addr == 0xFFFF {
        Some(0x00u8)
    } else {
        None
    }
}

/// What one CPU step does, from (c, m) to (c2, m2) in `t` T-cycles: service an interrupt,
/// idle while halted, or run the instruction at PC.
pub open spec fn cpu_tick_post(c: Cpu, m: MMU, c2: Cpu, m2: MMU, t: u8) -> bool {
    &&& c2.regs.f_spec() % 16 == 0
    &&& 4 <= t <= 36
    &&& match interrupt_choice(c.i_master, m.interrupt.ffff_ie, m.interrupt.ff0f_if) {
            Some(k) => {
                &&& t == 8
                &&& c2.regs == (Registers {
                    pc: vector(k),
                    sp: w16(c.regs.sp - 2),
                    ..c.regs
                })
                &&& !c2.halt && !c2.i_master
                &&& push_post(
                    MMU {
                        interrupt: Interrupt {
                            ff0f_if: with_bit(m.interrupt.ff0f_if, k, false),
                            ..m.interrupt
                        },
                        ..m
                    },
                    m2,
                    c.regs.sp,
                    c.regs.pc,
                )
            },
            None => !(c.halt && m.interrupt.ff0f_if % 32 == 0) ==> exec_post(
                Cpu { halt: false, ..c },
                m,
                c2,
                m2,
                t,
            ),
        }
    &&& c.halt && m.interrupt.ff0f_if % 32 == 0 ==> {
            &&& t == 4
            &&& c2 == c
            &&& m2 == m
        }
}

/// The register pair that bits 5..4 name in opcodes 0x00..=0x3F: BC, DE, HL, SP.
pub open spec fn pair_operand(k: u8) -> Operand16 {
    if k == 0 {
        Operand16::BC
    } else if k == 1 {
        Operand16::DE
    } else if k == 2 {
        Operand16::HL
    } else {
        Operand16::SP
    }
}

/// The memory operand that bits 5..4 name in LD (rr),A and LD A,(rr): (BC), (DE),
/// (HL+), (HL-).
pub open spec fn indirect_operand(k: u8) -> Operand8 {
    if k == 0 {
        Operand8::MemBC
    } else if k == 1 {
        Operand8::MemDE
    } else if k == 2 {
        Operand8::MemHLInc
    } else {
        Operand8::MemHLDec
    }
}

/// LD dst, src takes (r, m) to (r2, m2).
pub open spec fn ld_post(r: Registers, m: MMU, r2: Registers, m2: MMU, dst: Operand8, src: Operand8) -> bool {
    store8_post(operand_read(r, m, src).0, m, r2, m2, dst, operand_read(r, m, src).1)
}

/// The accumulator and flag instructions 0x07, 0x0F, .., 0x3F by bits 5..3: RLCA, RRCA,
/// RLA, RRA, DAA, CPL, SCF, CCF.
pub open spec fn misc_op(y: u8, r: Registers) -> Registers {
    if y == 0 {
        after_rlca(r)
    } else if y == 1 {
        after_rrca(r)
    } else if y == 2 {
        after_rla(r)
    } else if y == 3 {
        after_rra(r)
    } else if y == 4 {
        after_daa(r)
    } else if y == 5 {
        after_cpl(r)
    } else if y == 6 {
        after_scf(r)
    } else {
        after_ccf(r)
    }
}

/// Whether the condition of JR NZ / JR Z / JR NC / JR C (bits 5..3 = 4..7) holds.
pub open spec fn jr_condition(y: u8, r: Registers) -> bool {
    if y == 4 {
        !r.zf
    } else if y == 5 {
        r.zf
    } else if y == 6 {
        !r.cf
    } else {
        r.cf
    }
}

/// Opcodes 0x00..=0x3F, from (r, m) to (r2, m2). Bits 2..0 pick the group, bits 5..3
/// the operand or the operation.
pub open spec fn low_post(op: u8, r: Registers, m: MMU, r2: Registers, m2: MMU) -> bool {
    let y = op / 8;
    let p = pair_operand(y / 2);
    let (rn, nn) = read16_spec(r, m, Operand16::D16);
    let dst = reg_operand_spec(y);
    let (r1, v) = operand_read(r, m, Operand8::D8);
    &&& op % 8 == 0 && (y == 0 || y == 2) ==> r2 == r && m2 == m
    &&& op == 0x08 ==> store_sp_post(r, m, r2, m2)
    &&& op % 8 == 0 && y == 3 ==> r2 == jr_target(r, m) && m2 == m
    &&& op % 8 == 0 && y >= 4 ==> r2 == (if jr_condition(y, r) { jr_target(r, m) } else { r1 }) && m2 == m
    &&& op % 8 == 1 && y % 2 == 0 ==> r2 == set16(rn, p, nn) && m2 == m
    &&& op % 8 == 1 && y % 2 == 1 ==> r2 == after_add16(r, read16_spec(r, m, p).1) && m2 == m
    &&& op % 8 == 2 && y % 2 == 0 ==> ld_post(r, m, r2, m2, indirect_operand(y / 2), Operand8::A)
    &&& op % 8 == 2 && y % 2 == 1 ==> ld_post(r, m, r2, m2, Operand8::A, indirect_operand(y / 2))
    &&& op % 8 == 3 && y % 2 == 0 ==> r2 == set16(r, p, w16(read16_spec(r, m, p).1 + 1)) && m2 == m
    &&& op % 8 == 3 && y % 2 == 1 ==> r2 == set16(r, p, w16(read16_spec(r, m, p).1 - 1)) && m2 == m
    &&& op % 8 == 4 ==> inc_post(r, m, r2, m2, dst)
    &&& op % 8 == 5 ==> dec_post(r, m, r2, m2, dst)
    &&& op % 8 == 6 ==> store8_post(r1, m, r2, m2, dst, v)
    &&& op % 8 == 7 ==> r2 == misc_op(y, r) && m2 == m
}

/// T-cycles of opcodes 0x00..=0x3F, with `r` the registers once PC is past the opcode.
pub open spec fn low_cost(op: u8, r: Registers) -> u8 {
    let y = op / 8;
    if op % 8 == 0 {
        if y == 1 {
            20
        } else if y == 3 {
            12
        } else if y >= 4 {
            if jr_condition(y, r) { 12 } else { 8 }
        } else {
            4
        }
    } else if op % 8 == 1 {
        if y % 2 == 0 { 12 } else { 8 }
    } else if op % 8 == 2 {
        (4 + overhead8(indirect_operand(y / 2))) as u8
    } else if op % 8 == 3 {
        8
    } else if op % 8 == 4 || op % 8 == 5 {
        (4 + 2 * overhead8(reg_operand_spec(y))) as u8
    } else if op % 8 == 6 {
        (8 + overhead8(reg_operand_spec(y))) as u8
    } else {
        4
    }
}

/// T-cycles of opcodes 0xC0..=0xFF other than the CB prefix, DI, EI and RETI; a
/// condition that fails takes the lower count.
pub open spec fn high_cost(op: u8, r: Registers) -> u8 {
    let cond = branch_condition(op / 8 % 4, r);
    if op % 8 == 0 {
        if op < 0xE0 {
            if cond { 20 } else { 8 }
        } else if op == 0xE8 {
            16
        } else {
            12
        }
    } else if op % 8 == 1 {
        if op == 0xC9 {
            16
        } else if op == 0xE9 || op == 0xF9 {
            4
        } else {
            12
        }
    } else if op % 8 == 2 {
        if op < 0xE0 {
            12
        } else if op == 0xE2 || op == 0xF2 {
            8
        } else {
            20
        }
    } else if op % 8 == 3 {
        if op == 0xC3 { 12 } else { 4 }
    } else if op % 8 == 4 {
        if op < 0xE0 {
            if cond { 24 } else { 12 }
        } else {
            4
        }
    } else if op % 8 == 5 {
        if op == 0xCD {
            24
        } else if op / 8 % 2 == 0 {
            16
        } else {
            4
        }
    } else if op % 8 == 6 {
        8
    } else {
        16
    }
}

/// What running the instruction at PC does, from (c, m) to (c2, m2) in `t` T-cycles.
pub open spec fn exec_post(c: Cpu, m: MMU, c2: Cpu, m2: MMU, t: u8) -> bool {
    let op = m.read_spec(c.regs.pc);
    let r1 = Registers { pc: w16(c.regs.pc + 1), ..c.regs };
    let (r2, v) = operand_read(r1, m, reg_operand_spec(op % 8));
    &&& c2.regs.f_spec() % 16 == 0
    &&& c2.halt == (c.halt || op == 0x76)
    &&& !(op == 0xF3 || op == 0xFB || op == 0xD9) ==> c2.i_master == c.i_master
    &&& op == 0x76 ==> c2.regs == r1 && m2 == m && t == 4
    &&& 0x40 <= op <= 0x7F && op != 0x76 ==> {
        &&& store8_post(r2, m, c2.regs, m2, reg_operand_spec(op / 8 % 8), v)
        &&& t == 4 + overhead8(reg_operand_spec(op % 8)) + overhead8(reg_operand_spec(op / 8 % 8))
    }
    &&& 0x80 <= op <= 0xBF ==> c2.regs == alu_op(op / 8 % 8, r2, v) && m2 == m && t == 4 + overhead8(
        reg_operand_spec(op % 8),
    )
    &&& op < 0x40 ==> low_post(op, r1, m, c2.regs, m2) && t == low_cost(op, r1)
    &&& op >= 0xC0 && op != 0xCB && op != 0xF3 && op != 0xFB && op != 0xD9 ==> high_post(
        op,
        r1,
        m,
        c2.regs,
        m2,
    ) && t == high_cost(op, r1)
    &&& (op == 0xF3 || op == 0xFB) ==> c2.regs == r1 && m2 == m && c2.i_master == (op == 0xFB) && t == 4
    &&& op == 0xD9 ==> {
        &&& c2.regs == (Registers { sp: w16(r1.sp + 2), pc: stack_word(m, r1.sp), ..r1 })
        &&& m2 == m && c2.i_master && t == 16
    }
    &&& op == 0xCB ==> {
        &&& cb::cb_post(m.read_spec(r1.pc), Registers { pc: w16(r1.pc + 1), ..r1 }, m, c2.regs, m2)
        &&& t == 8 + overhead8(reg_operand_spec(m.read_spec(r1.pc) % 8))
    }
}

impl Cpu {
    /// Puts the CPU and the I/O registers in the state that the boot ROM leaves.
    pub fn reset(&mut self, mmu: &mut MMU)
        requires
            old(mmu).wf(),
        ensures
            final(mmu).wf(),
            final(self).regs == post_boot_regs(),
            final(self).regs.af_spec() == 0x11B0,
            final(self).halt == old(self).halt && final(self).i_master == old(self).i_master,
            final(mmu).lcd.ff40_lcdc == 0x91,
            final(mmu).colors.ff47_bgp == 0xFC,
            final(mmu).interrupt.ffff_ie == 0,
            final(mmu).cartridge == old(mmu).cartridge,
            forall|a: u16| #[trigger] post_boot_io(a) matches Some(v) ==> final(mmu).read_spec(a) == v,
            final(mmu).interrupt.ff0f_if == old(mmu).interrupt.ff0f_if,
            final(mmu).wram == old(mmu).wram && final(mmu).hram == old(mmu).hram,
            final(mmu).oam == old(mmu).oam && final(mmu).unusable == old(mmu).unusable,
            final(mmu).vram == old(mmu).vram,
    {
        self.regs.set_pc(0x0100);
        self.regs.set_af(0x11B0);
        self.regs.set_bc(0x0012);
        self.regs.set_de(0x00D8);
        self.regs.set_hl(0x014D);
        self.regs.set_sp(0xFFFE);

        mmu.write(0xFF50, 0x01);
        mmu.write(0xFF05, 0x00);
        mmu.write(0xFF06, 0x00);
        mmu.write(0xFF07, 0x00);
        mmu.write(0xFF10, 0x80);
        mmu.write(0xFF11, 0xBF);
        mmu.write(0xFF12, 0xF3);
        mmu.write(0xFF14, 0xBF);
        mmu.write(0xFF16, 0x3F);
        mmu.write(0xFF17, 0x00);
        mmu.write(0xFF19, 0xBF);
        mmu.write(0xFF1A, 0x7F);
        mmu.write(0xFF1B, 0xFF);
        mmu.write(0xFF1C, 0x9F);
        mmu.write(0xFF1E, 0xBF);
        mmu.write(0xFF20, 0xFF);
        mmu.write(0xFF21, 0x00);
        mmu.write(0xFF22, 0x00);
        mmu.write(0xFF23, 0xBF);
        mmu.write(0xFF24, 0x77);
        mmu.write(0xFF25, 0xF3);
        mmu.write(0xFF26, 0xF1);
        mmu.write(0xFF42, 0x00);
        mmu.write(0xFF43, 0x00);
        mmu.write(0xFF45, 0x00);
        mmu.write(0xFF48, 0xFF);
        mmu.write(0xFF49, 0xFF);
        mmu.write(0xFF4A, 0x00);
        mmu.write(0xFF4B, 0x00);
        mmu.write(0xFF40, 0x91);
        mmu.write(0xFF47, 0xFC);
        mmu.write(0xFFFF, 0x00);
        proof {
            crate::regs::lemma_f_low_nibble(self.regs, 0x11B0);
        }
    }

    /// Checks for an interrupt to service. A request in IF bits 0..=4 wakes a halted CPU
    /// whatever IME says. With IME set, the lowest pending interrupt has its IF bit
    /// cleared, IME is cleared, and its handler address is returned; otherwise 0.
    pub fn next_interrupt(&mut self, mmu: &mut MMU) -> (addr: u16)
        ensures
            final(self).regs == old(self).regs,
            final(self).halt == (old(self).halt && old(mmu).interrupt.ff0f_if % 32 == 0),
            match interrupt_choice(old(self).i_master, old(mmu).interrupt.ffff_ie, old(mmu).interrupt.ff0f_if) {
                Some(k) => {
                    &&& addr == vector(k)
                    &&& !final(self).i_master
                    &&& *final(mmu) == (MMU {
                        interrupt: Interrupt {
                            ff0f_if: with_bit(old(mmu).interrupt.ff0f_if, k, false),
                            ..old(mmu).interrupt
                        },
                        ..*old(mmu)
                    })
                },
                None => {
                    &&& addr == 0
                    &&& final(self).i_master == old(self).i_master
                    &&& *final(mmu) == *old(mmu)
                },
            },
    {
        let i_flag = mmu.interrupt.ff0f_if;
        if self.halt && i_flag % 32 != 0 {
            self.halt = false;
        }
        if !self.i_master {
            return 0x0000;
        }
        let i_enable = mmu.interrupt.ffff_ie;
        let mut k: u8 = 0;
        while k < 5
            invariant
                k <= 5,
                self.i_master,
                i_flag == mmu.interrupt.ff0f_if,
                i_enable == mmu.interrupt.ffff_ie,
                *mmu == *old(mmu),
                self.regs == old(self).regs,
                self.i_master == old(self).i_master,
                self.halt == (old(self).halt && old(mmu).interrupt.ff0f_if % 32 == 0),
                forall|j: u8| j < k ==> !pending(i_enable, i_flag, j),
            decreases 5 - k,
        {
            if get_bit(i_enable, k) && get_bit(i_flag, k) {
                set_bit(&mut mmu.interrupt.ff0f_if, k, false);
                self.i_master = false;
                assert(k == 0 || !pending(i_enable, i_flag, 0));
                return 0x40 + 8 * k as u16;
            }
            k = k + 1;
        }
        0x0000
    }

    /// One step: service an interrupt (8 T-cycles), idle while halted (4), or run one
    /// instruction. Returns the T-cycles spent.
    pub fn tick(&mut self, mmu: &mut MMU) -> (t: u8)
        requires
            old(mmu).wf(),
        ensures
            final(mmu).wf(),
            cpu_tick_post(*old(self), *old(mmu), *final(self), *final(mmu), t),
    {
        proof {
            if old(mmu).interrupt.ff0f_if % 32 == 0 {
                lemma_no_request(old(mmu).interrupt.ff0f_if);
            }
        }
        let addr_interrupt = self.next_interrupt(mmu);
        if addr_interrupt != 0x0000 {
            self.halt = false;
            push(self, mmu, Operand16::PC);
            self.regs.pc = addr_interrupt;
            proof {
                crate::regs::lemma_f_low_nibble(self.regs, 0);
            }
            return 8;
        }
        if self.halt {
            proof {
                crate::regs::lemma_f_low_nibble(self.regs, 0);
            }
            return 4;
        }
        exec_next(self, mmu)
    }
}

/// Opcodes 0x00..=0x3F.
fn exec_low(cpu: &mut Cpu, mmu: &mut MMU, op_code: u8) -> (t: u8)
    requires
        old(mmu).wf(),
        op_code < 0x40,
    ensures
        final(mmu).wf(),
        final(cpu).halt == old(cpu).halt,
        final(cpu).i_master == old(cpu).i_master,
        4 <= t <= 36,
        low_post(op_code, old(cpu).regs, *old(mmu), final(cpu).regs, *final(mmu)),
        t == low_cost(op_code, old(cpu).regs),
{
    let y: u8 = op_code / 8;
    match op_code % 8 {
        0 => match y {
            0 | 2 => nop(),
            1 => ld_a16_sp(cpu, mmu),
            3 => jr(cpu, mmu),
            4 => jr_n_flag(cpu, mmu, Flag::Zero),
            5 => jr_flag(cpu, mmu, Flag::Zero),
            6 => jr_n_flag(cpu, mmu, Flag::Carry),
            _ => jr_flag(cpu, mmu, Flag::Carry),
        },
        1 => match y {
            0 => ld_16(cpu, mmu, Operand16::BC, Operand16::D16),
            1 => add16(cpu, mmu, Operand16::BC),
            2 => ld_16(cpu, mmu, Operand16::DE, Operand16::D16),
            3 => add16(cpu, mmu, Operand16::DE),
            4 => ld_16(cpu, mmu, Operand16::HL, Operand16::D16),
            5 => add16(cpu, mmu, Operand16::HL),
            6 => ld_16(cpu, mmu, Operand16::SP, Operand16::D16),
            _ => add16(cpu, mmu, Operand16::SP),
        },
        2 => match y {
            0 => ld(cpu, mmu, Operand8::MemBC, Operand8::A),
            1 => ld(cpu, mmu, Operand8::A, Operand8::MemBC),
            2 => ld(cpu, mmu, Operand8::MemDE, Operand8::A),
            3 => ld(cpu, mmu, Operand8::A, Operand8::MemDE),
            4 => ld(cpu, mmu, Operand8::MemHLInc, Operand8::A),
            5 => ld(cpu, mmu, Operand8::A, Operand8::MemHLInc),
            6 => ld(cpu, mmu, Operand8::MemHLDec, Operand8::A),
            _ => ld(cpu, mmu, Operand8::A, Operand8::MemHLDec),
        },
        3 => match y {
            0 => inc16(cpu, mmu, Operand16::BC),
            1 => dec16(cpu, mmu, Operand16::BC),
            2 => inc16(cpu, mmu, Operand16::DE),
            3 => dec16(cpu, mmu, Operand16::DE),
            4 => inc16(cpu, mmu, Operand16::HL),
            5 => dec16(cpu, mmu, Operand16::HL),
            6 => inc16(cpu, mmu, Operand16::SP),
            _ => dec16(cpu, mmu, Operand16::SP),
        },
        4 => inc(cpu, mmu, reg_operand(y)),
        5 => dec(cpu, mmu, reg_operand(y)),
        6 => ld(cpu, mmu, reg_operand(y), Operand8::D8),
        _ => match y {
            0 => rlca(cpu),
            1 => rrca(cpu),
            2 => rla(cpu),
            3 => rra(cpu),
            4 => daa(cpu),
            5 => cpl(cpu),
            6 => scf(cpu),
            _ => ccf(cpu),
        },
    }
}

/// The eleven opcodes that name no instruction; they run as NOP.
pub open spec fn is_unused_opcode(op: u8) -> bool {
    op == 0xD3 || op == 0xDB || op == 0xDD || op == 0xE3 || op == 0xE4 || op == 0xEB || op == 0xEC
        || op == 0xED || op == 0xF4 || op == 0xFC || op == 0xFD
}

/// Stack, jump, call, restart and immediate-operand ALU instructions among opcodes
/// 0xC0..=0xFF, and the unused opcodes, from (r, m) to (r2, m2).
pub open spec fn high_post(op: u8, r: Registers, m: MMU, r2: Registers, m2: MMU) -> bool {
    let popped = Registers { sp: w16(r.sp + 2), ..r };
    let (rn, nn) = read16_spec(r, m, Operand16::D16);
    let (rd, d) = operand_read(r, m, Operand8::D8);
    &&& op == 0xC1 ==> r2 == set16(popped, Operand16::BC, stack_word(m, r.sp)) && m2 == m
    &&& op == 0xD1 ==> r2 == set16(popped, Operand16::DE, stack_word(m, r.sp)) && m2 == m
    &&& op == 0xE1 ==> r2 == set16(popped, Operand16::HL, stack_word(m, r.sp)) && m2 == m
    &&& op == 0xF1 ==> r2 == popped.with_af(stack_word(m, r.sp)) && m2 == m
    &&& op == 0xC9 ==> r2 == (Registers { pc: stack_word(m, r.sp), ..popped }) && m2 == m
    &&& op == 0xC5 ==> r2 == (Registers { sp: w16(r.sp - 2), ..r }) && push_post(m, m2, r.sp, r.bc_spec())
    &&& op == 0xD5 ==> r2 == (Registers { sp: w16(r.sp - 2), ..r }) && push_post(m, m2, r.sp, r.de_spec())
    &&& op == 0xE5 ==> r2 == (Registers { sp: w16(r.sp - 2), ..r }) && push_post(m, m2, r.sp, r.hl_spec())
    &&& op == 0xF5 ==> r2 == (Registers { sp: w16(r.sp - 2), ..r }) && push_post(m, m2, r.sp, r.af_spec())
    &&& op == 0xC3 ==> r2 == (Registers { pc: nn, ..rn }) && m2 == m
    &&& op == 0xE9 ==> r2 == (Registers { pc: r.hl_spec(), ..r }) && m2 == m
    &&& op == 0xCD ==> r2 == (Registers { sp: w16(rn.sp - 2), pc: nn, ..rn }) && push_post(m, m2, rn.sp, rn.pc)
    &&& op % 8 == 7 ==> r2 == (Registers { sp: w16(r.sp - 2), pc: (op - 0xC7) as u16, ..r })
        && push_post(m, m2, r.sp, r.pc)
    &&& op % 8 == 6 ==> r2 == alu_op(op / 8 % 8, rd, d) && m2 == m
    &&& is_unused_opcode(op) ==> r2 == r && m2 == m
    &&& op < 0xE0 && op % 8 == 0 ==> r2 == (if branch_condition(op / 8 % 4, r) {
        Registers { pc: stack_word(m, r.sp), ..popped }
    } else {
        r
    }) && m2 == m
    &&& op < 0xE0 && op % 8 == 2 ==> r2 == (Registers {
        pc: if branch_condition(op / 8 % 4, r) { nn } else { rn.pc },
        ..rn
    }) && m2 == m
    &&& op < 0xE0 && op % 8 == 4 ==> if branch_condition(op / 8 % 4, r) {
        r2 == (Registers { sp: w16(rn.sp - 2), pc: nn, ..rn }) && push_post(m, m2, rn.sp, rn.pc)
    } else {
        r2 == rn && m2 == m
    }
    &&& op == 0xE0 ==> ld_post(r, m, r2, m2, Operand8::MemD8, Operand8::A)
    &&& op == 0xF0 ==> ld_post(r, m, r2, m2, Operand8::A, Operand8::MemD8)
    &&& op == 0xE2 ==> ld_post(r, m, r2, m2, Operand8::MemC, Operand8::A)
    &&& op == 0xF2 ==> ld_post(r, m, r2, m2, Operand8::A, Operand8::MemC)
    &&& op == 0xEA ==> ld_post(r, m, r2, m2, Operand8::MemD16, Operand8::A)
    &&& op == 0xFA ==> ld_post(r, m, r2, m2, Operand8::A, Operand8::MemD16)
    &&& op == 0xE8 ==> r2 == (Registers { sp: sp_offset_regs(r, m).1, ..sp_offset_regs(r, m).0 }) && m2 == m
    &&& op == 0xF8 ==> r2 == sp_offset_regs(r, m).0.with_hl(sp_offset_regs(r, m).1) && m2 == m
    &&& op == 0xF9 ==> r2 == (Registers { sp: r.hl_spec(), ..r }) && m2 == m
}

/// Whether the condition of a conditional jump, call or return holds: NZ, Z, NC, C
/// for `k` = 0..=3.
pub open spec fn branch_condition(k: u8, r: Registers) -> bool {
    if k == 0 {
        !r.zf
    } else if k == 1 {
        r.zf
    } else if k == 2 {
        !r.cf
    } else {
        r.cf
    }
}

/// Opcodes 0xC0..=0xFF with bits 2..0 = 0, 2 or 4.
fn exec_high_even(cpu: &mut Cpu, mmu: &mut MMU, op_code: u8) -> (t: u8)
    requires
        old(mmu).wf(),
        op_code >= 0xC0,
        op_code != 0xCB && op_code != 0xF3 && op_code != 0xFB && op_code != 0xD9,
        op_code % 8 == 0 || op_code % 8 == 2 || op_code % 8 == 4,
    ensures
        final(mmu).wf(),
        final(cpu).halt == old(cpu).halt,
        final(cpu).i_master == old(cpu).i_master,
        4 <= t <= 36,
        high_post(op_code, old(cpu).regs, *old(mmu), final(cpu).regs, *final(mmu)),
        t == high_cost(op_code, old(cpu).regs),
{
    match op_code {
        0xC0 => ret_n_flag(cpu, mmu, Flag::Zero),
        0xC8 => ret_flag(cpu, mmu, Flag::Zero),
        0xD0 => ret_n_flag(cpu, mmu, Flag::Carry),
        0xD8 => ret_flag(cpu, mmu, Flag::Carry),
        0xE0 => ld(cpu, mmu, Operand8::MemD8, Operand8::A),
        0xF0 => ld(cpu, mmu, Operand8::A, Operand8::MemD8),
        0xE8 => add_sp_r8(cpu, mmu),
        0xF8 => ld_hl_spr8(cpu, mmu),
        0xC2 => jp_n_flag(cpu, mmu, Flag::Zero),
        0xCA => jp_flag(cpu, mmu, Flag::Zero),
        0xD2 => jp_n_flag(cpu, mmu, Flag::Carry),
        0xDA => jp_flag(cpu, mmu, Flag::Carry),
        0xE2 => ld(cpu, mmu, Operand8::MemC, Operand8::A),
        0xF2 => ld(cpu, mmu, Operand8::A, Operand8::MemC),
        0xEA => ld(cpu, mmu, Operand8::MemD16, Operand8::A),
        0xFA => ld(cpu, mmu, Operand8::A, Operand8::MemD16),
        0xC4 => call_n_flag(cpu, mmu, Flag::Zero),
        0xCC => call_flag(cpu, mmu, Flag::Zero),
        0xD4 => call_n_flag(cpu, mmu, Flag::Carry),
        0xDC => call_flag(cpu, mmu, Flag::Carry),
        // 0xE4, 0xEC, 0xF4, 0xFC: no such instruction; they run as NOP.
        _ => nop(),
    }
}


/// Opcodes 0xC0..=0xFF with bits 2..0 = 1, 3 or 5.
fn exec_high_odd(cpu: &mut Cpu, mmu: &mut MMU, op_code: u8) -> (t: u8)
    requires
        old(mmu).wf(),
        op_code >= 0xC0,
        op_code != 0xCB && op_code != 0xF3 && op_code != 0xFB && op_code != 0xD9,
        op_code % 8 == 1 || op_code % 8 == 3 || op_code % 8 == 5,
    ensures
        final(mmu).wf(),
        final(cpu).halt == old(cpu).halt,
        final(cpu).i_master == old(cpu).i_master,
        4 <= t <= 36,
        high_post(op_code, old(cpu).regs, *old(mmu), final(cpu).regs, *final(mmu)),
        t == high_cost(op_code, old(cpu).regs),
{
    match op_code {
        0xC9 => ret(cpu, mmu),
        0xC1 => pop(cpu, mmu, Operand16::BC),
        0xD1 => pop(cpu, mmu, Operand16::DE),
        0xE1 => pop(cpu, mmu, Operand16::HL),
        0xF1 => pop_af(cpu, mmu),
        0xE9 => jp(cpu, mmu, Operand16::HL),
        0xF9 => ld_16(cpu, mmu, Operand16::SP, Operand16::HL),
        0xC3 => jp(cpu, mmu, Operand16::D16),
        0xCD => call(cpu, mmu),
        0xC5 => push(cpu, mmu, Operand16::BC),
        0xD5 => push(cpu, mmu, Operand16::DE),
        0xE5 => push(cpu, mmu, Operand16::HL),
        0xF5 => push(cpu, mmu, Operand16::AF),
        // 0xD3, 0xDB, 0xDD, 0xE3, 0xEB, 0xED, 0xFD: no such instruction; they run as NOP.
        _ => nop(),
    }
}

/// The result of ALU operation `k` (ADD, ADC, SUB, SBC, AND, XOR, OR, CP) on A and `v`.
pub open spec fn alu_op(k: u8, r: Registers, v: u8) -> Registers {
    if k == 0 {
        after_add(r, v, false)
    } else if k == 1 {
        after_add(r, v, r.cf)
    } else if k == 2 {
        after_sub(r, v, false)
    } else if k == 3 {
        after_sub(r, v, r.cf)
    } else if k == 4 {
        after_and(r, v)
    } else if k == 5 {
        after_xor(r, v)
    } else if k == 6 {
        after_or(r, v)
    } else {
        after_cp(r, v)
    }
}

/// Opcodes 0xC0..=0xFF with bits 2..0 = 6 or 7: ALU on the immediate byte, and RST.
fn exec_high_imm(cpu: &mut Cpu, mmu: &mut MMU, op_code: u8) -> (t: u8)
    requires
        old(mmu).wf(),
        op_code >= 0xC0,
        op_code != 0xCB && op_code != 0xF3 && op_code != 0xFB && op_code != 0xD9,
        op_code % 8 == 6 || op_code % 8 == 7,
    ensures
        final(mmu).wf(),
        final(cpu).halt == old(cpu).halt,
        final(cpu).i_master == old(cpu).i_master,
        4 <= t <= 36,
        high_post(op_code, old(cpu).regs, *old(mmu), final(cpu).regs, *final(mmu)),
        t == high_cost(op_code, old(cpu).regs),
{
    if op_code % 8 == 7 {
        return rst(cpu, mmu, (op_code - 0xC7) as u16);
    }
    match op_code / 8 % 8 {
        0 => crate::ops::add(cpu, mmu, Operand8::D8),
        1 => adc(cpu, mmu, Operand8::D8),
        2 => crate::ops::sub(cpu, mmu, Operand8::D8),
        3 => sbc(cpu, mmu, Operand8::D8),
        4 => and(cpu, mmu, Operand8::D8),
        5 => xor(cpu, mmu, Operand8::D8),
        6 => or(cpu, mmu, Operand8::D8),
        _ => cp(cpu, mmu, Operand8::D8),
    }
}

/// Opcodes 0xC0..=0xFF other than the CB prefix, DI, EI and RETI.
fn exec_high(cpu: &mut Cpu, mmu: &mut MMU, op_code: u8) -> (t: u8)
    requires
        old(mmu).wf(),
        op_code >= 0xC0,
        op_code != 0xCB && op_code != 0xF3 && op_code != 0xFB && op_code != 0xD9,
    ensures
        final(mmu).wf(),
        final(cpu).halt == old(cpu).halt,
        final(cpu).i_master == old(cpu).i_master,
        4 <= t <= 36,
        high_post(op_code, old(cpu).regs, *old(mmu), final(cpu).regs, *final(mmu)),
        t == high_cost(op_code, old(cpu).regs),
{
    if op_code % 8 == 0 || op_code % 8 == 2 || op_code % 8 == 4 {
        exec_high_even(cpu, mmu, op_code)
    } else if op_code % 8 == 6 || op_code % 8 == 7 {
        exec_high_imm(cpu, mmu, op_code)
    } else {
        exec_high_odd(cpu, mmu, op_code)
    }
}

/// The ALU group 0x80..=0xBF: bits 5..3 pick the operation, bits 2..0 the operand.
fn exec_alu(cpu: &mut Cpu, mmu: &MMU, op_code: u8) -> (t: u8)
    requires
        mmu.wf(),
        0x80 <= op_code <= 0xBF,
    ensures
        ({
            let (r2, v) = operand_read(old(cpu).regs, *mmu, reg_operand_spec(op_code % 8));
            *final(cpu) == (Cpu { regs: alu_op(op_code / 8 % 8, r2, v), ..*old(cpu) })
        }),
        t == 4 + overhead8(reg_operand_spec(op_code % 8)),
{
    let src = reg_operand(op_code % 8);
    match op_code / 8 % 8 {
        0 => crate::ops::add(cpu, mmu, src),
        1 => adc(cpu, mmu, src),
        2 => crate::ops::sub(cpu, mmu, src),
        3 => sbc(cpu, mmu, src),
        4 => and(cpu, mmu, src),
        5 => xor(cpu, mmu, src),
        6 => or(cpu, mmu, src),
        _ => cp(cpu, mmu, src),
    }
}

/// Fetches the opcode at PC, moves PC past it, and runs the instruction. Returns the
/// T-cycles spent. F's low nibble is clear afterwards, whatever the opcode. The
/// effect of every opcode is stated: by group for 0x00..=0x3F
/// (`low_post`), LD r,r' for 0x40..=0x7F, the ALU for 0x80..=0xBF (`alu_op`), the CB
/// table (`cb_post`), and 0xC0..=0xFF (`high_post`, DI, EI, RETI).
pub fn exec_next(cpu: &mut Cpu, mmu: &mut MMU) -> (t: u8)
    requires
        old(mmu).wf(),
    ensures
        final(mmu).wf(),
        4 <= t <= 36,
        exec_post(*old(cpu), *old(mmu), *final(cpu), *final(mmu), t),
{
    let pc = cpu.regs.pc;
    let op_code = mmu.read(pc);
    cpu.regs.pc = wrap_add16(pc, 1);
    let t = if op_code == 0x76 {
        halt(cpu)
    } else if 0x40 <= op_code && op_code <= 0x7F {
        ld(cpu, mmu, reg_operand(op_code / 8 % 8), reg_operand(op_code % 8))
    } else if 0x80 <= op_code && op_code <= 0xBF {
        exec_alu(cpu, mmu, op_code)
    } else if op_code < 0x40 {
        exec_low(cpu, mmu, op_code)
    } else if op_code == 0xCB {
        cb::exec_next(cpu, mmu)
    } else if op_code == 0xF3 {
        disable_interrupts(cpu)
    } else if op_code == 0xFB {
        enable_interrupts(cpu)
    } else if op_code == 0xD9 {
        reti(cpu, mmu)
    } else {
        exec_high(cpu, mmu, op_code)
    };
    proof {
        crate::regs::lemma_f_low_nibble(cpu.regs, 0);
    }
    t
}

} // verus!
