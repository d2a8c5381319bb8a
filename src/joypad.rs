//! Joypad register: two groups of four buttons multiplexed on `P1` (0xff00).
use vstd::prelude::*;

verus! {

/// A button of the handheld.
#[derive(Clone, Copy, Debug, PartialEq, Eq, Structural)]
pub enum Button {
    Right,
    Left,
    Up,
    Down,
    A,
    B,
    Select,
    Start,
}

/// Pressed buttons (a set bit means pressed) and the group-select bits.
#[derive(Clone, Copy, Debug, PartialEq, Eq, Structural)]
pub struct Joypad {
    /// Right, Left, Up, Down in bits 0 to 3.
    pub directions: u8,
    /// A, B, Select, Start in bits 0 to 3.
    pub actions: u8,
    /// Bits 4 and 5 of `P1`: a cleared bit selects its group.
    pub select: u8,
}

/// Group bit (within the low nibble) of a button.
pub open spec fn button_bit(b: Button) -> u8 {
    match b {
        Button::Right | Button::A => 0x01,
        Button::Left | Button::B => 0x02,
        Button::Up | Button::Select => 0x04,
        Button::Down | Button::Start => 0x08,
    }
}

pub open spec fn is_direction(b: Button) -> bool {
    b is Right || b is Left || b is Up || b is Down
}

impl Joypad {
    pub fn new() -> (r: Joypad)
        ensures
            r.directions == 0 && r.actions == 0 && r.select == 0x30,
    {
        Joypad { directions: 0, actions: 0, select: 0x30 }
    }

    /// The value of `P1`: pressed buttons of the selected groups read as 0.
    pub open spec fn read_spec(&self) -> u8 {
        let d: u8 = if self.select & 0x10 == 0 { self.directions } else { 0 };
        let a: u8 = if self.select & 0x20 == 0 { self.actions } else { 0 };
        0xc0 | (self.select & 0x30) | (!(d | a) & 0x0f)
    }

    pub fn read(&self) -> (r: u8)
        ensures
            r == self.read_spec(),
    {
        let d: u8 = if self.select & 0x10 == 0 { self.directions } else { 0 };
        let a: u8 = if self.select & 0x20 == 0 { self.actions } else { 0 };
        0xc0 | (self.select & 0x30) | (!(d | a) & 0x0f)
    }

    /// A write to `P1` sets the group-select bits only.
    pub fn write(&mut self, v: u8)
        ensures
            final(self).select == v & 0x30,
            final(self).directions == old(self).directions,
            final(self).actions == old(self).actions,
    {
        self.select = v & 0x30;
    }

    fn button_bit_exec(b: Button) -> (r: u8)
        ensures
            r == button_bit(b),
    {
        match b {
            Button::Right | Button::A => 0x01,
            Button::Left | Button::B => 0x02,
            Button::Up | Button::Select => 0x04,
            Button::Down | Button::Start => 0x08,
        }
    }

    /// Records a press or a release; returns whether this was a new press, which
    /// raises the joypad interrupt.
    pub fn set_button(&mut self, b: Button, pressed: bool) -> (r: bool)
        ensures
            final(self).select == old(self).select,
            is_direction(b) ==> final(self).actions == old(self).actions,
            is_direction(b) ==> final(self).directions == if pressed {
                old(self).directions | button_bit(b)
            } else {
                old(self).directions & !button_bit(b)
            },
            !is_direction(b) ==> final(self).directions == old(self).directions,
            !is_direction(b) ==> final(self).actions == if pressed {
                old(self).actions | button_bit(b)
            } else {
                old(self).actions & !button_bit(b)
            },
            r == (pressed && (if is_direction(b) { old(self).directions } else {
                old(self).actions
            }) & button_bit(b) == 0),
    {
        let bit = Self::button_bit_exec(b);
        let dir = match b {
            Button::Right | Button::Left | Button::Up | Button::Down => true,
            _ => false,
        };
        let before = if dir { self.directions } else { self.actions };
        let after = if pressed { before | bit } else { before & !bit };
        if dir {
            self.directions = after;
        } else {
            self.actions = after;
        }
        pressed && before & bit == 0
    }
}

} // verus!
