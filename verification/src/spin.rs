//! Busy-wait delay used by the stand-alone blinky program.

use vstd::prelude::*;

verus! {

/// `core::hint::black_box(())`: an opaque no-op that keeps the loop from
/// being optimised away. Nothing is promised of it.
#[verifier::external_body]
fn spin_hint() {
    core::hint::black_box(());
}

/// Spin count of each on and off half of the stand-alone blink.
pub const BLINK_SPIN_COUNT: u32 = 50_000;

/// Spins for `count` iterations (not cycle-accurate).
pub fn delay(count: u32) {
    let mut i: u32 = 0;
    while i < count
        invariant
            i <= count,
        decreases count - i,
    {
        spin_hint();
        i = i + 1;
    }
}

} // verus!
