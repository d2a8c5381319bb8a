//! Interrupt controller: the enabled and pending masks and their priority order.
use vstd::prelude::*;

verus! {

pub const VBLANK: u8 = 0x01;
pub const STAT: u8 = 0x02;
pub const TIMER: u8 = 0x04;
pub const SERIAL: u8 = 0x08;
pub const JOYPAD: u8 = 0x10;

/// Enabled (`IE`, 0xffff) and pending (`IF`, 0xff0f) interrupt masks.
#[derive(Clone, Copy, Debug, PartialEq, Eq, Structural)]
pub struct Interrupts {
    pub enable: u8,
    pub flags: u8,
}


/// The interrupt to service among those set in `m`: the lowest of the five source
/// bits (vertical blank, STAT, timer, serial, joypad, in that order of priority).
pub open spec fn priority_of(m: u8) -> Option<u8> {
    if m & 0x01 != 0 {
        Some(0u8)
    } else if m & 0x02 != 0 {
        Some(1u8)
    } else if m & 0x04 != 0 {
        Some(2u8)
    } else if m & 0x08 != 0 {
        Some(3u8)
    } else if m & 0x10 != 0 {
        Some(4u8)
    } else {
        None
    }
}

/// Service address of interrupt `i`.
pub open spec fn vector_of(i: u8) -> u16 {
    (0x40 + 8 * i) as u16
}

impl Interrupts {
    pub fn new() -> (r: Interrupts)
        ensures
            r.enable == 0 && r.flags == 0,
    {
        Interrupts { enable: 0, flags: 0 }
    }

    /// Enabled interrupts that are pending.
    pub open spec fn active_spec(&self) -> u8 {
        self.enable & self.flags & 0x1f
    }

    /// Whether any enabled interrupt is pending.
    pub fn any_active(&self) -> (r: bool)
        ensures
            r == (self.active_spec() != 0),
    {
        self.enable & self.flags & 0x1f != 0
    }

    /// The enabled, pending interrupt of highest priority.
    pub fn highest(&self) -> (r: Option<u8>)
        ensures
            r == priority_of(self.active_spec()),
            r is Some ==> r->Some_0 < 5,
            r is None <==> self.active_spec() == 0,
    {
        let e = self.enable;
        let f = self.flags;
        let m = e & f & 0x1f;
        assert((m & 0x1f == m && m & 1 == 0 && m & 2 == 0 && m & 4 == 0 && m & 8 == 0 && m & 0x10 == 0)
            ==> m == 0) by (bit_vector);
        assert(m == 0 ==> (m & 1 == 0 && m & 2 == 0 && m & 4 == 0 && m & 8 == 0 && m & 0x10 == 0))
            by (bit_vector);
        assert(m & 0x1f == m) by (bit_vector)
            requires m == e & f & 0x1f;
        if m & 0x01 != 0 {
            Some(0)
        } else if m & 0x02 != 0 {
            Some(1)
        } else if m & 0x04 != 0 {
            Some(2)
        } else if m & 0x08 != 0 {
            Some(3)
        } else if m & 0x10 != 0 {
            Some(4)
        } else {
            None
        }
    }

    /// Marks the interrupts in `mask` as pending.
    pub fn request(&mut self, mask: u8)
        ensures
            final(self).flags == old(self).flags | mask,
            final(self).enable == old(self).enable,
    {
        self.flags = self.flags | mask;
    }

    /// Clears the pending bit of interrupt `i`.
    pub fn acknowledge(&mut self, i: u8)
        requires
            i < 5,
        ensures
            final(self).flags == old(self).flags & !(1u8 << i),
            final(self).enable == old(self).enable,
    {
        self.flags = self.flags & !(1u8 << i);
    }
}

/// When the vertical-blank and timer interrupts are both pending and enabled, the
/// vertical-blank interrupt is serviced first.
pub proof fn lemma_vblank_before_timer(ints: Interrupts)
    requires
        ints.enable & VBLANK != 0,
        ints.flags & VBLANK != 0,
        ints.enable & TIMER != 0,
        ints.flags & TIMER != 0,
    ensures
        priority_of(ints.active_spec()) == Some(0u8),
        vector_of(0) == 0x40,
{
    let e = ints.enable;
    let f = ints.flags;
    assert((e & 1 != 0 && f & 1 != 0) ==> (e & f & 0x1f) & 0x01 != 0) by (bit_vector);
}

} // verus!
