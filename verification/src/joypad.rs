use vstd::prelude::*;
use crate::interrupt_system::{Interrupt, InterruptSystem};

verus! {

pub const BUTTON_RIGHT: u8 = 0b0000_0001;
pub const BUTTON_LEFT: u8 = 0b0000_0010;
pub const BUTTON_UP: u8 = 0b0000_0100;
pub const BUTTON_DOWN: u8 = 0b0000_1000;
pub const BUTTON_A: u8 = 0b0001_0000;
pub const BUTTON_B: u8 = 0b0010_0000;
pub const BUTTON_SELECT: u8 = 0b0100_0000;
pub const BUTTON_START: u8 = 0b1000_0000;

/// A set of buttons, one bit per button (see the `BUTTON_` constants).
#[derive(Copy, Clone, Debug, PartialEq, Eq, Structural)]
pub struct Buttons(pub u8);

impl Buttons {
    /// The buttons of both sets.
    pub fn union(self, other: Buttons) -> (r: Buttons)
        ensures
            r.0 == self.0 | other.0,
    {
        Buttons(self.0 | other.0)
    }
}

/// The write-mask of the P1 register
pub const P1_MASK: u8 = 0b_0011_0000;

pub struct JoyPad {
    /// aka JOYP
    pub p1_reg: u8,
    /// The buttons currently held down
    pub pressed: Buttons,
}

impl JoyPad {
    pub fn new() -> (r: JoyPad)
        ensures
            r.p1_reg == 0xff,
            r.pressed.0 == 0,
    {
        JoyPad { p1_reg: 0xff, pressed: Buttons(0) }
    }

    pub fn read_p1(&self) -> (r: u8)
        ensures
            r == self.p1_reg,
    {
        self.p1_reg
    }

    /// Only the line-select bits (4 and 5) of P1 can be written.
    pub fn write_p1(&mut self, val: u8)
        ensures
            final(self).p1_reg == (old(self).p1_reg & !P1_MASK) | (val & P1_MASK),
            final(self).pressed == old(self).pressed,
    {
        self.p1_reg = (self.p1_reg & (!P1_MASK)) | (val & P1_MASK);
    }

    /// `buttons` were pressed; the other buttons keep their state. A
    /// button that was not held before requests the joypad interrupt.
    pub fn notify_buttons_pressed(&mut self, ir_system: &mut InterruptSystem, buttons: Buttons)
        ensures
            final(self).pressed.0 == old(self).pressed.0 | buttons.0,
            final(self).p1_reg == old(self).p1_reg,
            *final(ir_system) == if buttons.0 & !old(self).pressed.0 != 0 {
                old(ir_system).scheduled(Interrupt::Joypad)
            } else {
                *old(ir_system)
            },
    {
        let newly = buttons.0 & !self.pressed.0;
        self.pressed = Buttons(self.pressed.0 | buttons.0);
        if newly != 0 {
            ir_system.schedule_interrupt(Interrupt::Joypad);
        }
    }

    /// `buttons` were released; the other buttons keep their state.
    pub fn notify_buttons_released(&mut self, buttons: Buttons)
        ensures
            final(self).pressed.0 == old(self).pressed.0 & !buttons.0,
            final(self).p1_reg == old(self).p1_reg,
    {
        self.pressed = Buttons(self.pressed.0 & !buttons.0);
    }

    /// Exactly `buttons` are held down. A button that was not held before
    /// requests the joypad interrupt.
    pub fn notify_buttons_state(&mut self, ir_system: &mut InterruptSystem, buttons: Buttons)
        ensures
            final(self).pressed == buttons,
            final(self).p1_reg == old(self).p1_reg,
            *final(ir_system) == if buttons.0 & !old(self).pressed.0 != 0 {
                old(ir_system).scheduled(Interrupt::Joypad)
            } else {
                *old(ir_system)
            },
    {
        let newly = buttons.0 & !self.pressed.0;
        self.pressed = buttons;
        if newly != 0 {
            ir_system.schedule_interrupt(Interrupt::Joypad);
        }
    }
}

/// Pressing and then releasing the same buttons leaves every other button
/// as it was and those buttons released; a press keeps the buttons already held.
pub proof fn law_press_release(held: u8, buttons: u8)
    ensures
        (held | buttons) & !buttons == held & !buttons,
        (held | buttons) & held == held,
        forall|i: u8| i < 8 && (buttons >> i) & 1 == 0 ==> ((((held | buttons) & !buttons) >> i) & 1
            == (held >> i) & 1),
{
    assert((held | buttons) & !buttons == held & !buttons) by (bit_vector);
    assert((held | buttons) & held == held) by (bit_vector);
    assert(forall|i: u8| i < 8 && (buttons >> i) & 1 == 0 ==> ((((held | buttons) & !buttons) >> i)
        & 1 == (held >> i) & 1)) by (bit_vector);
}

} // verus!
