use vstd::prelude::*;
use crate::bits::{bit_of, get_bit, set_bit, with_bit};

verus! {

/// The interrupt request (IF, 0xFF0F) and enable (IE, 0xFFFF) registers.
/// Bits 0..=4: V-Blank, LCD STAT, Timer, Serial, Joypad.
pub struct Interrupt {
    pub ff0f_if: u8,
    pub ffff_ie: u8,
}

impl Interrupt {
    pub fn new() -> (r: Self)
        ensures
            r.ff0f_if == 0 && r.ffff_ie == 0,
    {
        Interrupt { ff0f_if: 0, ffff_ie: 0 }
    }

    pub fn vblank_interrupt_request(&self) -> (r: bool)
        ensures
            r == bit_of(self.ff0f_if, 0),
    {
        get_bit(self.ff0f_if, 0)
    }

    pub fn set_vblank_interrupt_request(&mut self, value: bool)
        ensures
            final(self).ff0f_if == with_bit(old(self).ff0f_if, 0, value),
            final(self).ffff_ie == old(self).ffff_ie,
    {
        set_bit(&mut self.ff0f_if, 0, value)
    }

    pub fn lcd_stat_interrupt_request(&self) -> (r: bool)
        ensures
            r == bit_of(self.ff0f_if, 1),
    {
        get_bit(self.ff0f_if, 1)
    }

    pub fn set_lcd_stat_interrupt_request(&mut self, value: bool)
        ensures
            final(self).ff0f_if == with_bit(old(self).ff0f_if, 1, value),
            final(self).ffff_ie == old(self).ffff_ie,
    {
        set_bit(&mut self.ff0f_if, 1, value)
    }
}

} // verus!
