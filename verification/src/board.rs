//! Board-level facts shared by the tasks: the on-board LED and GPIO masks.

use vstd::prelude::*;

verus! {

/// GPIO pin of the on-board LED of the Pico 2.
pub const LED_PIN: usize = 25;

/// Level to drive the LED to.
#[derive(Clone, Copy, Debug, PartialEq, Eq, Structural)]
pub enum LedLevel {
    On,
    Off,
}

/// The single-bit mask that selects GPIO `pin` in the SIO set/clear/enable
/// registers.
pub fn gpio_mask(pin: usize) -> (mask: u32)
    requires
        pin < 32,
    ensures
        mask == 1u32 << (pin as u32),
        forall|j: u32| j < 32 ==> (((mask >> j) & 1u32 == 1u32) <==> j == pin),
{
    let shift: u32 = pin as u32;
    let mask: u32 = 1u32 << shift;
    assert(forall|j: u32| j < 32 ==> (((mask >> j) & 1u32 == 1u32) <==> j == shift)) by (bit_vector)
        requires
            shift < 32,
            mask == 1u32 << shift,
    ;
    mask
}

} // verus!
