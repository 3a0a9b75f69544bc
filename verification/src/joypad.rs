//! The joypad register.
//!
//! Bits 4 and 5 of the register, written by the program, select a group
//! of four buttons by being clear: bit 4 the directions, bit 5 the action
//! buttons. Bits 0 to 3 show the selected buttons, a clear bit standing
//! for a button held down. Bits 6 and 7 read as ones.

use vstd::prelude::*;

verus! {

#[derive(Clone, Copy, Debug, PartialEq, Eq, Structural)]
pub enum Button {
    Right,
    Left,
    Up,
    Down,
    A,
    B,
    Select,
    Start,
}

impl Button {
    /// The button's bit among the buttons held: the directions in bits 0
    /// to 3, the action buttons in bits 4 to 7.
    pub open spec fn mask(self) -> u8 {
        match self {
            Button::Right => 0x01,
            Button::Left => 0x02,
            Button::Up => 0x04,
            Button::Down => 0x08,
            Button::A => 0x10,
            Button::B => 0x20,
            Button::Select => 0x40,
            Button::Start => 0x80,
        }
    }

    pub fn to_mask(self) -> (mask: u8)
        ensures
            mask == self.mask(),
    {
        match self {
            Button::Right => 0x01,
            Button::Left => 0x02,
            Button::Up => 0x04,
            Button::Down => 0x08,
            Button::A => 0x10,
            Button::B => 0x20,
            Button::Select => 0x40,
            Button::Start => 0x80,
        }
    }
}

/// A button going down or coming up.
#[derive(Clone, Copy, Debug, PartialEq, Eq, Structural)]
pub enum JoypadEvent {
    Down(Button),
    Up(Button),
}

#[derive(Clone, Copy, Debug, PartialEq, Eq, Structural)]
pub struct Joypad {
    /// Bits 4 and 5 as last written.
    pub select: u8,
    /// The buttons held down, one bit each.
    pub pressed: u8,
}

impl Joypad {
    pub open spec fn fresh() -> Joypad {
        Joypad { select: 0x30, pressed: 0 }
    }

    /// The four button lines of the selected groups, a set bit standing
    /// for a button held down.
    pub open spec fn lines(self) -> u8 {
        let directions = if self.select & 0x10 == 0 {
            self.pressed & 0x0F
        } else {
            0
        };
        let actions = if self.select & 0x20 == 0 {
            self.pressed >> 4
        } else {
            0
        };
        directions | actions
    }

    /// What reading the register gives.
    pub open spec fn value(self) -> u8 {
        0xC0 | self.select | (!self.lines() & 0x0F)
    }

    pub open spec fn after_write(self, value: u8) -> Joypad {
        Joypad { select: value & 0x30, ..self }
    }

    /// The joypad once the event has happened.
    pub open spec fn after_event(self, event: JoypadEvent) -> Joypad {
        match event {
            JoypadEvent::Down(button) => Joypad { pressed: self.pressed | button.mask(), ..self },
            JoypadEvent::Up(button) => Joypad { pressed: self.pressed & !button.mask(), ..self },
        }
    }

    /// Whether the event asks for the joypad interrupt: a button goes
    /// down that was not held.
    pub open spec fn interrupts(self, event: JoypadEvent) -> bool {
        event matches JoypadEvent::Down(button) && self.pressed & button.mask() == 0
    }

    pub fn new() -> (joypad: Joypad)
        ensures
            joypad == Joypad::fresh(),
    {
        Joypad { select: 0x30, pressed: 0 }
    }

    pub fn read(&self) -> (value: u8)
        ensures
            value == self.value(),
    {
        let directions = if self.select & 0x10 == 0 {
            self.pressed & 0x0F
        } else {
            0
        };
        let actions = if self.select & 0x20 == 0 {
            self.pressed >> 4
        } else {
            0
        };
        0xC0 | self.select | (!(directions | actions) & 0x0F)
    }

    pub fn write(&mut self, value: u8)
        ensures
            *final(self) == old(self).after_write(value),
    {
        self.select = value & 0x30;
    }

    /// Takes a button event. Returns `true` if the joypad interrupt
    /// should be triggered.
    pub fn handle_event(&mut self, event: &JoypadEvent) -> (interrupt: bool)
        ensures
            *final(self) == old(self).after_event(*event),
            interrupt == old(self).interrupts(*event),
    {
        match event {
            JoypadEvent::Down(button) => {
                let mask = button.to_mask();
                let interrupt = self.pressed & mask == 0;
                self.pressed = self.pressed | mask;
                interrupt
            },
            JoypadEvent::Up(button) => {
                self.pressed = self.pressed & !button.to_mask();
                false
            },
        }
    }
}

} // verus!
