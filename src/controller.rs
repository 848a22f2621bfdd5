//! The controller port: eight buttons in a live mask, latched while the strobe is
//! high and shifted out one bit per read.
use vstd::prelude::*;

verus! {

/// A controller button, in the order the port shifts them out.
#[derive(Clone, Copy, PartialEq, Eq, Structural, Debug)]
pub enum Button {
    A,
    B,
    Select,
    Start,
    Up,
    Down,
    Left,
    Right,
}

impl Button {
    /// The button's bit in the button mask.
    pub open spec fn spec_mask(self) -> u8 {
        match self {
            Button::A => 0x01,
            Button::B => 0x02,
            Button::Select => 0x04,
            Button::Start => 0x08,
            Button::Up => 0x10,
            Button::Down => 0x20,
            Button::Left => 0x40,
            Button::Right => 0x80,
        }
    }

    pub fn mask(&self) -> (r: u8)
        ensures
            r == self.spec_mask(),
    {
        match self {
            Button::A => 0x01,
            Button::B => 0x02,
            Button::Select => 0x04,
            Button::Start => 0x08,
            Button::Up => 0x10,
            Button::Down => 0x20,
            Button::Left => 0x40,
            Button::Right => 0x80,
        }
    }
}

/// The controller's strobe, live buttons and latched shift register.
#[derive(Clone, Copy, PartialEq, Eq, Structural, Debug)]
pub struct Controller {
    pub strobe: bool,
    pub buttons_dyn: u8,
    pub buttons_latched: u8,
}

impl Controller {
    pub fn new() -> (r: Controller)
        ensures
            !r.strobe && r.buttons_dyn == 0 && r.buttons_latched == 0,
    {
        Controller { strobe: false, buttons_dyn: 0, buttons_latched: 0 }
    }

    /// Sets or clears a button in the live mask.
    pub fn set_button_state(&mut self, button: Button, pressed: bool)
        ensures
            final(self).buttons_dyn == (if pressed {
                old(self).buttons_dyn | button.spec_mask()
            } else {
                old(self).buttons_dyn & !button.spec_mask()
            }),
            final(self).strobe == old(self).strobe,
            final(self).buttons_latched == old(self).buttons_latched,
    {
        let m = button.mask();
        if pressed {
            self.buttons_dyn = self.buttons_dyn | m;
        } else {
            self.buttons_dyn = self.buttons_dyn & !m;
        }
    }

    /// Copies the live mask into the shift register.
    pub fn latch_buttons(&mut self)
        ensures
            *final(self) == (Controller { buttons_latched: old(self).buttons_dyn, ..*old(self) }),
    {
        self.buttons_latched = self.buttons_dyn;
    }

    /// Latches the live mask while the strobe is high.
    pub fn update(&mut self)
        ensures
            *final(self) == (if old(self).strobe {
                Controller { buttons_latched: old(self).buttons_dyn, ..*old(self) }
            } else {
                *old(self)
            }),
    {
        if self.strobe {
            self.latch_buttons();
        }
    }

    /// Returns the next button's state (bit 0) and shifts.
    pub fn read(&mut self) -> (r: u8)
        ensures
            r == old(self).buttons_latched % 2,
            *final(self) == (Controller { buttons_latched: old(self).buttons_latched / 2, ..*old(self) }),
    {
        let r = self.buttons_latched % 2;
        self.buttons_latched = self.buttons_latched / 2;
        r
    }
}

} // verus!
