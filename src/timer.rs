//! Divider and programmable countdown timer.
use vstd::prelude::*;

verus! {

/// Timer registers: `DIV` (upper byte of `div`), `TIMA`, `TMA` and `TAC`.
#[derive(Clone, Copy, Debug, PartialEq, Eq, Structural)]
pub struct Timer {
    /// Free-running 16-bit divider; the `DIV` register is its upper byte.
    pub div: u16,
    pub tima: u8,
    pub tma: u8,
    pub tac: u8,
}

/// Cycles per `TIMA` increment for each rate selection of `TAC`.
pub open spec fn period_of(tac: u8) -> u16 {
    let sel = tac & 3;
    if sel == 0 {
        1024
    } else if sel == 1 {
        16
    } else if sel == 2 {
        64
    } else {
        256
    }
}

/// One clock cycle: the divider advances; when enabled and the divider reaches a
/// multiple of the selected period, `TIMA` advances, reloading from `TMA` and
/// raising the timer interrupt on overflow.
pub open spec fn tick_one(t: Timer) -> (Timer, bool) {
    let div: u16 = if t.div == 0xffff { 0 } else { (t.div + 1) as u16 };
    if t.tac & 4 != 0 && div % period_of(t.tac) == 0 {
        if t.tima == 0xff {
            (Timer { div, tima: t.tma, ..t }, true)
        } else {
            (Timer { div, tima: (t.tima + 1) as u8, ..t }, false)
        }
    } else {
        (Timer { div, ..t }, false)
    }
}

/// `n` clock cycles, and whether any of them raised the timer interrupt.
pub open spec fn tick_n(t: Timer, n: nat) -> (Timer, bool)
    decreases n,
{
    if n == 0 {
        (t, false)
    } else {
        let (t1, i1) = tick_n(t, (n - 1) as nat);
        let (t2, i2) = tick_one(t1);
        (t2, i1 || i2)
    }
}

impl Timer {
    pub fn new() -> (r: Timer)
        ensures
            r.div == 0 && r.tima == 0 && r.tma == 0 && r.tac == 0,
    {
        Timer { div: 0, tima: 0, tma: 0, tac: 0 }
    }

    /// The `DIV` register.
    pub fn div_reg(&self) -> (r: u8)
        ensures
            r == (self.div >> 8) as u8,
    {
        (self.div >> 8) as u8
    }

    fn tick(&mut self) -> (r: bool)
        ensures
            (*final(self), r) == tick_one(*old(self)),
    {
        let div: u16 = if self.div == 0xffff { 0 } else { self.div + 1 };
        self.div = div;
        let sel = self.tac & 3;
        let period: u16 = if sel == 0 {
            1024
        } else if sel == 1 {
            16
        } else if sel == 2 {
            64
        } else {
            256
        };
        assert(period == period_of(self.tac));
        if self.tac & 4 != 0 && self.div % period == 0 {
            if self.tima == 0xff {
                self.tima = self.tma;
                return true;
            } else {
                self.tima = self.tima + 1;
            }
        }
        false
    }

    /// Advances the timer by `cycles` clock cycles; returns whether the timer
    /// interrupt was raised.
    pub fn step(&mut self, cycles: u64) -> (r: bool)
        ensures
            (*final(self), r) == tick_n(*old(self), cycles as nat),
    {
        let mut raised = false;
        let mut i: u64 = 0;
        while i < cycles
            invariant
                i <= cycles,
                (*self, raised) == tick_n(*old(self), i as nat),
            decreases cycles - i,
        {
            let r = self.tick();
            raised = raised || r;
            i = i + 1;
        }
        raised
    }
}

} // verus!
