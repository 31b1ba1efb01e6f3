use vstd::prelude::*;
use crate::bits::{bit_of, get_bit, set_bit, with_bit};
use crate::interrupt::Interrupt;
use crate::mmu::MMU;
use crate::regs::w8;

verus! {

pub const CPUCLOCK: usize = 4194304;
pub const DIVCLOCK: usize = CPUCLOCK / 16384;
pub const TACCLOCK0: usize = CPUCLOCK / 4096;
pub const TACCLOCK1: usize = CPUCLOCK / 262144;
pub const TACCLOCK2: usize = CPUCLOCK / 65536;
pub const TACCLOCK3: usize = CPUCLOCK / 16384;

/// T-cycles per TIMA increment for each TAC clock select.
pub open spec fn tac_clock(sel: int) -> usize {
    if sel == 0 {
        TACCLOCK0
    } else if sel == 1 {
        TACCLOCK1
    } else if sel == 2 {
        TACCLOCK2
    } else {
        TACCLOCK3
    }
}

/// TIMA and whether it overflowed, after `n` increments from `tima`; each overflow
/// reloads TMA.
pub open spec fn tima_run(tima: u8, tma: u8, n: nat) -> (u8, bool)
    decreases n,
{
    if n == 0 {
        (tima, false)
    } else {
        let prev = tima_run(tima, tma, (n - 1) as nat);
        if prev.0 == 0xFF {
            (tma, true)
        } else {
            ((prev.0 + 1) as u8, prev.1)
        }
    }
}

/// What a timer step of `ticks` T-cycles does, from (tm, m) to (tm2, m2).
pub open spec fn timers_post(tm: Timers, m: MMU, ticks: u8, tm2: Timers, m2: MMU) -> bool {
    &&& m2 == (MMU { io: m2.io, interrupt: m2.interrupt, ..m })
    &&& m2.interrupt.ffff_ie == m.interrupt.ffff_ie
    &&& forall|i: int| 0 <= i < 128 && i != 4 && i != 5 ==> m2.io@[i] == m.io@[i]
    &&& ({
        let d = tm.div_count + ticks;
        &&& tm2.div_count as int == d % 256
        &&& m2.io@[4] == if d >= 256 { w8(m.io@[4] + 1) } else { m.io@[4] }
    })
    &&& ({
        let tac = m.io@[7];
        let tc = tm.tima_count + ticks;
        let clk = tac_clock(tac as int % 4);
        let run = tima_run(m.io@[5], m.io@[6], (tc / (clk as int)) as nat);
        if bit_of(tac, 2) {
            &&& tm2.tima_count as int == tc % (clk as int)
            &&& m2.io@[5] == run.0
            &&& m2.interrupt.ff0f_if == if run.1 {
                with_bit(m.interrupt.ff0f_if, 2, true)
            } else {
                m.interrupt.ff0f_if
            }
        } else {
            &&& tm2.tima_count == tm.tima_count
            &&& m2.io@[5] == m.io@[5]
            &&& m2.interrupt.ff0f_if == m.interrupt.ff0f_if
        }
    })
}

/// The DIV (0xFF04) and TIMA (0xFF05) counters, with TMA (0xFF06) and TAC (0xFF07).
pub struct Timers {
    pub div_count: usize,
    pub tima_count: usize,
}

impl Timers {
    pub open spec fn wf(&self) -> bool {
        self.div_count < DIVCLOCK && self.tima_count < TACCLOCK0
    }

    pub fn new() -> (r: Timers)
        ensures
            r.wf(),
            r.div_count == 0 && r.tima_count == 0,
    {
        Timers { div_count: 0, tima_count: 0 }
    }

    /// T-cycles per TIMA increment, from TAC bits 1..0.
    pub fn cycles_tima_inc(&self, tac: u8) -> (r: usize)
        ensures
            r == tac_clock(tac as int % 4),
    {
        match tac % 4 {
            0 => TACCLOCK0,
            1 => TACCLOCK1,
            2 => TACCLOCK2,
            _ => TACCLOCK3,
        }
    }

    /// Advances the counters by `ticks` T-cycles. DIV goes up by one every 256; while
    /// TAC bit 2 is set TIMA goes up at the TAC rate, and on overflow it reloads from
    /// TMA and requests the timer interrupt (IF bit 2).
    pub fn tick(&mut self, mmu: &mut MMU, ticks: u8)
        requires
            old(self).wf(),
            old(mmu).wf(),
        ensures
            final(self).wf(),
            final(mmu).wf(),
            timers_post(*old(self), *old(mmu), ticks, *final(self), *final(mmu)),
    {
        self.div_count = self.div_count + ticks as usize;
        if self.div_count >= DIVCLOCK {
            let div = mmu.read(0xFF04);
            mmu.write(0xFF04, ((div as u16 + 1) % 256) as u8);
            self.div_count = self.div_count % DIVCLOCK;
        }
        let ghost after_div = *mmu;
        assert(forall|i: int| 0 <= i < 128 && i != 4 ==> after_div.io@[i] == old(mmu).io@[i]);
        let tac = mmu.read(0xFF07);
        if get_bit(tac, 2) {
            let ghost tc = self.tima_count + ticks;
            self.tima_count = self.tima_count + ticks as usize;
            let clock = self.cycles_tima_inc(tac);
            let tma = mmu.read(0xFF06);
            let ghost if0 = mmu.interrupt.ff0f_if;
            let ghost mid = *mmu;
            let ghost mut k: nat = 0;
            let ghost dc = self.div_count;
            while self.tima_count >= clock
                invariant
                    mmu.wf(),
                    mid.wf(),
                    self.div_count == dc,
                    clock == tac_clock(tac as int % 4),
                    tma == mid.io@[6],
                    tac == mid.io@[7],
                    self.div_count < DIVCLOCK,
                    self.tima_count + k * clock == tc,
                    tc < TACCLOCK0 + 256,
                    *mmu == (MMU { io: mmu.io, interrupt: mmu.interrupt, ..mid }),
                    mmu.interrupt.ffff_ie == mid.interrupt.ffff_ie,
                    mmu.io@.len() == 128,
                    forall|i: int| 0 <= i < 128 && i != 5 ==> mmu.io@[i] == mid.io@[i],
                    mmu.io@[5] == tima_run(mid.io@[5], tma, k).0,
                    mmu.interrupt.ff0f_if == if tima_run(mid.io@[5], tma, k).1 {
                        with_bit(if0, 2, true)
                    } else {
                        if0
                    },
                decreases self.tima_count,
            {
                let tima = mmu.read(0xFF05);
                let next: u8 = if tima == 0xFF {
                    set_bit(&mut mmu.interrupt.ff0f_if, 2, true);
                    proof {
                        crate::bits::lemma_with_bit_idempotent(if0, 2);
                    }
                    tma
                } else {
                    tima + 1
                };
                mmu.write(0xFF05, next);
                self.tima_count = self.tima_count - clock;
                proof {
                    k = k + 1;
                    assert(self.tima_count + k * clock == tc) by (nonlinear_arith)
                        requires
                            self.tima_count + clock + (k - 1) * clock == tc,
                    ;
                }
            }
            assert forall|i: int| 0 <= i < 128 && i != 4 && i != 5 implies mmu.io@[i] == old(mmu).io@[i] by {
                assert(mmu.io@[i] == mid.io@[i]);
                assert(mid.io@[i] == after_div.io@[i]);
            }
            proof {
                vstd::arithmetic::div_mod::lemma_fundamental_div_mod_converse(
                    tc,
                    clock as int,
                    k as int,
                    self.tima_count as int,
                );
            }
        }
    }
}

} // verus!
