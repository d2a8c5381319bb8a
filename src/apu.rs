//! The audio sink: driven by elapsed cycles, opaque to the machine.
use vstd::prelude::*;

verus! {

/// Consumer of elapsed clock cycles that synthesizes sound.
pub trait Audio: Sized {
    /// A fresh sink.
    fn create() -> Self;

    /// Lets `cycles` clock cycles elapse.
    fn step(&mut self, cycles: u64);
}

/// No sound.
impl Audio for () {
    fn create() -> Self {
    }

    fn step(&mut self, cycles: u64) {
    }
}

} // verus!
