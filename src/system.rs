use vstd::prelude::*;
use crate::bits::{with_bit, set_bit};
use crate::cartridge::DynCartridge;
use crate::cpu::Cpu;
use crate::dma::{OamDmaManager, dma_post};
use crate::exec::{cpu_tick_post, post_boot_regs};
use crate::gpu::{FULL_FRAME, GPU, State, gpu_tick_post};
use crate::interrupt::Interrupt;
use crate::mmu::MMU;
use crate::screen::Screen;
use crate::timers::{Timers, timers_post};

verus! {

pub const BUTTON_MASK: u8 = 0b00100000;
pub const ARROW_MASK: u8 = 0b00010000;
pub const SELECT_MASK: u8 = 0b00110000;

/// Most orchestrator steps in one call of `System::tick`. A step takes at least 4
/// T-cycles, so this is four frames' worth of time.
pub const MAX_STEPS_PER_FRAME: usize = FULL_FRAME;

/// The value of 0xFF00 after a joypad scan: the row select bits kept, and the low
/// nibble from the selected row (buttons on bit 5 low, arrows on bit 4 low), or 0x0F.
pub open spec fn joypad_value(mem: u8, buttons: u8, arrow: u8) -> u8 {
    let sel = mem & SELECT_MASK;
    if sel == SELECT_MASK {
        sel | 0x0F
    } else if mem & BUTTON_MASK == 0 {
        sel | buttons
    } else if mem & ARROW_MASK == 0 {
        sel | arrow
    } else {
        sel
    }
}

/// Whether going from the cached rows to the new ones presses a key that was up
/// (a 1 bit, released, that becomes 0).
pub open spec fn newly_pressed(old_buttons: u8, old_arrow: u8, buttons: u8, arrow: u8) -> bool {
    old_buttons & buttons != old_buttons || old_arrow & arrow != old_arrow
}

/// Cached key rows, each the complement of the pressed keys (pressed = 0).
pub struct Joypad {
    pub hw_buttons: u8,
    pub hw_arrow: u8,
}

impl Joypad {
    pub fn new() -> (r: Joypad)
        ensures
            r.hw_buttons == 0x0F && r.hw_arrow == 0x0F,
    {
        Joypad { hw_buttons: 0x0F, hw_arrow: 0x0F }
    }

    /// Takes a host key snapshot (bit 0 A .. bit 7 DOWN, pressed = 1) and requests the
    /// joypad interrupt (IF bit 4) if a key went down.
    pub fn handle_keys(&mut self, mmu: &mut MMU, keys: &u8)
        ensures
            final(self).hw_buttons == 15 - *keys % 16,
            final(self).hw_arrow == 15 - *keys / 16,
            *final(mmu) == (MMU {
                interrupt: Interrupt {
                    ff0f_if: if newly_pressed(
                        old(self).hw_buttons,
                        old(self).hw_arrow,
                        final(self).hw_buttons,
                        final(self).hw_arrow,
                    ) {
                        with_bit(old(mmu).interrupt.ff0f_if, 4, true)
                    } else {
                        old(mmu).interrupt.ff0f_if
                    },
                    ..old(mmu).interrupt
                },
                ..*old(mmu)
            }),
    {
        let hw_buttons: u8 = 15 - *keys % 16;
        let hw_arrow: u8 = 15 - *keys / 16;
        if self.hw_buttons & hw_buttons != self.hw_buttons || self.hw_arrow & hw_arrow != self.hw_arrow {
            set_bit(&mut mmu.interrupt.ff0f_if, 4, true);
        }
        self.hw_buttons = hw_buttons;
        self.hw_arrow = hw_arrow;
    }

    /// Refreshes 0xFF00 from the row select bits and the cached rows.
    pub fn tick(&mut self, mmu: &mut MMU)
        requires
            old(mmu).wf(),
        ensures
            final(mmu).wf(),
            *final(self) == *old(self),
            MMU::write_post(
                *old(mmu),
                *final(mmu),
                0xFF00,
                joypad_value(old(mmu).io@[0], old(self).hw_buttons, old(self).hw_arrow),
            ),
    {
        let mem = mmu.read(0xFF00);
        let sel = mem & SELECT_MASK;
        let res = if sel == SELECT_MASK {
            sel | 0x0F
        } else if mem & BUTTON_MASK == 0 {
            sel | self.hw_buttons
        } else if mem & ARROW_MASK == 0 {
            sel | self.hw_arrow
        } else {
            sel
        };
        mmu.write(0xFF00, res);
    }
}

/// One orchestrator step from `a` to `b` reporting `s`, through the buses m1..m4 and
/// the CPU's `t` T-cycles: joypad scan, CPU, PPU, timers, then DMA.
pub open spec fn step_chain(a: System, b: System, s: State, t: u8, m1: MMU, m2: MMU, m3: MMU, m4: MMU) -> bool {
    &&& MMU::write_post(a.mmu, m1, 0xFF00, joypad_value(a.mmu.io@[0], a.joypad.hw_buttons, a.joypad.hw_arrow))
    &&& cpu_tick_post(a.cpu, m1, b.cpu, m2, t)
    &&& gpu_tick_post(a.gpu, m2, t, b.gpu, m3, s)
    &&& timers_post(a.timers, m3, t, b.timers, m4)
    &&& dma_post(m4, b.mmu)
    &&& b.joypad == a.joypad
}

/// `b` follows from `a` by one orchestrator step that reports `s`.
pub open spec fn step_post(a: System, b: System, s: State) -> bool {
    exists|t: u8, m1: MMU, m2: MMU, m3: MMU, m4: MMU| #[trigger] step_chain(a, b, s, t, m1, m2, m3, m4)
}

/// The machine once the key snapshot `keys` is taken (see `Joypad::handle_keys`).
pub open spec fn with_keys(a: System, keys: u8) -> System {
    let b = (15 - keys % 16) as u8;
    let r = (15 - keys / 16) as u8;
    System {
        joypad: Joypad { hw_buttons: b, hw_arrow: r },
        mmu: MMU {
            interrupt: Interrupt {
                ff0f_if: if newly_pressed(a.joypad.hw_buttons, a.joypad.hw_arrow, b, r) {
                    with_bit(a.mmu.interrupt.ff0f_if, 4, true)
                } else {
                    a.mmu.interrupt.ff0f_if
                },
                ..a.mmu.interrupt
            },
            ..a.mmu
        },
        ..a
    }
}

/// `trace` runs orchestrator steps from `start`, with `states` what each reported, until
/// a step reports a frame or `MAX_STEPS_PER_FRAME` steps have run.
pub open spec fn frame_run(start: System, trace: Seq<System>, states: Seq<State>) -> bool {
    &&& trace.len() == states.len() + 1
    &&& trace[0] == start
    &&& states.len() <= MAX_STEPS_PER_FRAME
    &&& forall|i: int| 0 <= i < states.len() ==> #[trigger] step_post(trace[i], trace[i + 1], states[i])
    &&& forall|i: int| 0 <= i < states.len() - 1 ==> #[trigger] states[i] == State::Default
    &&& states.len() < MAX_STEPS_PER_FRAME ==> states.len() > 0 && states.last() == State::Frame
}

/// The whole machine: CPU, PPU, bus, joypad, timers and OAM DMA.
pub struct System {
    pub cpu: Cpu,
    pub gpu: GPU,
    pub mmu: MMU,
    pub joypad: Joypad,
    pub timers: Timers,
    pub oam_manager: OamDmaManager,
}

impl System {
    pub open spec fn wf(&self) -> bool {
        self.mmu.wf() && self.gpu.wf() && self.timers.wf()
    }

    /// Builds the machine around `cartridge` in its post-boot state. CGB colour mode
    /// is on when header byte 0x143 is 0x80 or 0xC0.
    pub fn new(cartridge: DynCartridge) -> (r: System)
        requires
            cartridge.wf(),
        ensures
            r.wf(),
            r.cpu.regs == post_boot_regs(),
            !r.cpu.halt && !r.cpu.i_master,
            r.gpu.color_mode == (cartridge.read_spec(0x0143) == 0x80 || cartridge.read_spec(0x0143) == 0xC0),
            r.mmu.cartridge == cartridge,
            r.mmu.lcd.ff40_lcdc == 0x91,
            r.gpu.current_mode == crate::lcd::Mode::HBlank,
            r.gpu.current_mode_length == 0 && r.gpu.disabled_length == 0,
            r.joypad.hw_buttons == 0x0F && r.joypad.hw_arrow == 0x0F,
            r.timers.div_count == 0 && r.timers.tima_count == 0,
            !r.mmu.oam.dma_transfer_requested,
            forall|i: int| 0 <= i < 0x2000 ==> r.mmu.wram.view()[i] == 0,
            forall|i: int| 0 <= i < 127 ==> r.mmu.hram.view()[i] == 0,
            forall|i: int| 0 <= i < 160 ==> r.mmu.oam.view()[i] == 0,
            forall|i: int| 0 <= i < 0x2000 ==> r.mmu.vram.bank_view(false)[i] == 0 && r.mmu.vram.bank_view(true)[i] == 0,
    {
        let flag = cartridge.read(0x0143);
        let color_mode = flag == 0x80 || flag == 0xC0;
        let mut cpu = Cpu::new();
        let gpu = GPU::new(color_mode);
        let mut mmu = MMU::new(cartridge);
        cpu.reset(&mut mmu);
        System {
            cpu,
            gpu,
            mmu,
            joypad: Joypad::new(),
            timers: Timers::new(),
            oam_manager: OamDmaManager::new(),
        }
    }

    /// One orchestrator step: joypad scan, one CPU step, then PPU, timers and DMA fed
    /// with the CPU's T-cycles, in that order. Reports whether a frame completed.
    pub fn step(&mut self) -> (s: State)
        requires
            old(self).wf(),
        ensures
            final(self).wf(),
            final(self).gpu.color_mode == old(self).gpu.color_mode,
            final(self).cpu.regs.f_spec() % 16 == 0,
            old(self).cpu.halt && old(self).mmu.interrupt.ff0f_if % 32 == 0 ==> final(self).cpu
                == old(self).cpu,
            final(self).joypad == old(self).joypad,
            step_post(*old(self), *final(self), s),
    {
        self.joypad.tick(&mut self.mmu);
        let ghost m1 = self.mmu;
        let ticks = self.cpu.tick(&mut self.mmu);
        let ghost m2 = self.mmu;
        let state = self.gpu.tick(&mut self.mmu, ticks);
        let ghost m3 = self.mmu;
        self.timers.tick(&mut self.mmu, ticks);
        let ghost m4 = self.mmu;
        self.oam_manager.tick(&mut self.mmu);
        assert(step_chain(*old(self), *self, state, ticks, m1, m2, m3, m4));
        state
    }

    /// Takes the key snapshot, runs orchestrator steps until the PPU completes a frame
    /// (or for at most `MAX_STEPS_PER_FRAME` steps), then swaps that frame into `screen`.
    pub fn tick(&mut self, screen: &mut Screen, keys: &u8)
        requires
            old(self).wf(),
            old(screen).wf(),
        ensures
            final(self).wf(),
            final(screen).wf(),
            final(self).gpu.screen == *old(screen),
            final(self).joypad.hw_buttons == 15 - *keys % 16,
            final(self).joypad.hw_arrow == 15 - *keys / 16,
            exists|trace: Seq<System>, states: Seq<State>|
                #[trigger] frame_run(with_keys(*old(self), *keys), trace, states)
                    && *final(screen) == trace.last().gpu.screen && *final(self) == (System {
                    gpu: GPU { screen: *old(screen), ..trace.last().gpu },
                    ..trace.last()
                }),
    {
        self.joypad.handle_keys(&mut self.mmu, keys);
        let ghost start = *self;
        assert(start == with_keys(*old(self), *keys));
        let ghost mut trace: Seq<System> = seq![*self];
        let ghost mut states: Seq<State> = Seq::empty();
        let mut done = false;
        let mut steps: usize = 0;
        while !done && steps < MAX_STEPS_PER_FRAME
            invariant
                self.wf(),
                steps <= MAX_STEPS_PER_FRAME,
                self.joypad.hw_buttons == 15 - *keys % 16,
                self.joypad.hw_arrow == 15 - *keys / 16,
                trace.len() == states.len() + 1,
                states.len() == steps,
                trace[0] == start,
                trace.last() == *self,
                forall|i: int| 0 <= i < states.len() ==> #[trigger] step_post(trace[i], trace[i + 1], states[i]),
                forall|i: int| 0 <= i < states.len() - 1 ==> #[trigger] states[i] == State::Default,
                done ==> states.len() > 0 && states.last() == State::Frame,
                !done ==> forall|i: int| 0 <= i < states.len() ==> #[trigger] states[i] == State::Default,
            decreases MAX_STEPS_PER_FRAME - steps,
        {
            let ghost before = *self;
            let state = self.step();
            proof {
                let old_trace = trace;
                let old_states = states;
                trace = trace.push(*self);
                states = states.push(state);
                assert forall|i: int| 0 <= i < states.len() implies #[trigger] step_post(
                    trace[i],
                    trace[i + 1],
                    states[i],
                ) by {
                    if i < old_states.len() {
                        assert(trace[i] == old_trace[i] && trace[i + 1] == old_trace[i + 1]
                            && states[i] == old_states[i]);
                    }
                }
                assert forall|i: int| 0 <= i < states.len() - 1 implies #[trigger] states[i] == State::Default by {
                    assert(states[i] == old_states[i]);
                }
            }
            done = matches!(state, State::Frame);
            steps = steps + 1;
        }
        self.gpu.swap_screen(screen);
        assert(frame_run(start, trace, states));
    }
}

} // verus!
