//! The PWM brightness fade: a ramp up over `(PWM_LOW..=PWM_HIGH).step_by(32)`
//! followed by a ramp down over `(PWM_LOW..=PWM_HIGH).rev().step_by(32)`, one
//! duty value per kernel tick.

use vstd::prelude::*;

verus! {

/// GPIO pin driven by PWM slice 4, channel B: the on-board LED.
pub const PWM_PIN: usize = 25;

/// PWM slice that drives `PWM_PIN`.
pub const PWM_CH: usize = 4;

/// Counter wrap value of the PWM slice (`u16::MAX - 1`).
pub const PWM_TOP: u32 = 0xFFFE;

/// Lowest duty value of the ramps.
pub const PWM_LOW: u16 = 0x0000;

/// Highest duty value of the ramps.
pub const PWM_HIGH: u16 = 0xFFFF;

/// Distance between consecutive duty values of a ramp.
pub const FADE_STEP: u16 = 32;

/// Number of duty values in each ramp: `0x10000 / 32`.
pub const RAMP_LEN: u16 = 2048;

/// Number of steps in a full fade (up and down).
pub open spec fn fade_period() -> nat {
    2 * RAMP_LEN as nat
}

/// The duty value at position `p` of a fade: `32 p` on the way up, then
/// `0xFFFF - 32 (p - 2048)` on the way down.
pub open spec fn fade_duty(p: nat) -> nat {
    if p < RAMP_LEN as nat {
        p * FADE_STEP as nat
    } else {
        (PWM_HIGH as nat - (p - RAMP_LEN as nat) * FADE_STEP as nat) as nat
    }
}

/// One step of the fade on its view `(deadline, position)`.
pub open spec fn fade_next(s: (nat, nat)) -> (nat, nat) {
    (s.0 + 1, (s.1 + 1) % fade_period())
}

/// The view after `k` steps.
pub open spec fn fade_after(s: (nat, nat), k: nat) -> (nat, nat)
    decreases k,
{
    if k == 0 {
        s
    } else {
        fade_next(fade_after(s, (k - 1) as nat))
    }
}

/// One step of the fade: set the duty cycle, then sleep until `wake_at`.
#[derive(Clone, Copy, Debug, PartialEq, Eq, Structural)]
pub struct FadeStep {
    pub duty: u16,
    pub wake_at: u64,
}

/// The fade schedule: the last deadline, the ramp, and the position in it.
pub struct Fade {
    deadline: u64,
    rising: bool,
    index: u16,
}

impl View for Fade {
    type V = (nat, nat);

    closed spec fn view(&self) -> (nat, nat) {
        (
            self.deadline as nat,
            if self.rising {
                self.index as nat
            } else {
                RAMP_LEN as nat + self.index as nat
            },
        )
    }
}

impl Fade {
    /// The position lies inside its ramp.
    pub closed spec fn wf(self) -> bool {
        self.index < RAMP_LEN
    }

    /// A fade that starts at the bottom of the up ramp at time `now`.
    pub fn new(now: u64) -> (f: Fade)
        ensures
            f.wf(),
            f@ == (now as nat, 0nat),
    {
        Fade { deadline: now, rising: true, index: 0 }
    }

    /// The last deadline (ticks).
    pub fn deadline(&self) -> (d: u64)
        ensures
            d == self@.0,
    {
        self.deadline
    }

    /// Runs one step: the duty value to set and the next tick to wake at.
    /// The deadline must not overflow `u64`.
    pub fn step(&mut self) -> (step: FadeStep)
        requires
            old(self).wf(),
            old(self)@.0 + 1 <= u64::MAX,
        ensures
            final(self).wf(),
            final(self)@ == fade_next(old(self)@),
            step.duty == fade_duty(old(self)@.1),
            step.wake_at == final(self)@.0,
    {
        let offset: u16 = self.index * FADE_STEP;
        let duty: u16 = if self.rising { PWM_LOW + offset } else { PWM_HIGH - offset };
        self.deadline = self.deadline + 1;
        if self.index + 1 == RAMP_LEN {
            self.index = 0;
            self.rising = !self.rising;
        } else {
            self.index = self.index + 1;
        }
        proof {
            let p = old(self)@.1;
            assert(fade_period() == 4096);
            if p + 1 == 4096 {
                assert((p + 1) % 4096 == 0);
            } else {
                assert((p + 1) % 4096 == p + 1);
            }
        }
        FadeStep { duty, wake_at: self.deadline }
    }
}

/// `PWM_PIN` is wired to output B of slice `PWM_CH`: on the RP2350 a GPIO
/// `n` carries slice `(n / 2) % 8`, output A for even `n` and B for odd `n`.
pub proof fn lemma_pwm_pin_is_channel_b()
    ensures
        (PWM_PIN / 2) % 8 == PWM_CH,
        PWM_PIN % 2 == 1,
{
}

/// Every duty value of the fade fits the 16-bit compare register, the up
/// ramp starts at `PWM_LOW`, the down ramp starts at `PWM_HIGH`, and the last
/// values of the ramps are 65504 and 31.
pub proof fn lemma_fade_bounds(p: nat)
    requires
        p < fade_period(),
    ensures
        fade_duty(p) <= PWM_HIGH,
        fade_duty(0) == PWM_LOW,
        fade_duty(RAMP_LEN as nat) == PWM_HIGH,
        fade_duty((RAMP_LEN - 1) as nat) == 65504,
        fade_duty((fade_period() - 1) as nat) == 31,
{
}

/// The up ramp climbs by exactly `FADE_STEP` per step and the down ramp
/// descends by exactly `FADE_STEP` per step.
pub proof fn lemma_fade_ramps(p: nat)
    ensures
        p + 1 < RAMP_LEN ==> fade_duty(p + 1) == fade_duty(p) + FADE_STEP,
        RAMP_LEN <= p && p + 1 < fade_period() ==> fade_duty(p + 1) + FADE_STEP == fade_duty(p),
{
}

proof fn lemma_fade_after_closed(s: (nat, nat), k: nat)
    requires
        s.1 < fade_period(),
    ensures
        fade_after(s, k) == (s.0 + k, (s.1 + k) % fade_period()),
    decreases k,
{
    if k > 0 {
        lemma_fade_after_closed(s, (k - 1) as nat);
        vstd::arithmetic::div_mod::lemma_add_mod_noop((s.1 + k - 1) as int, 1, fade_period() as int);
        vstd::arithmetic::div_mod::lemma_mod_twice(1, fade_period() as int);
    } else {
        vstd::arithmetic::div_mod::lemma_small_mod(s.1, fade_period());
    }
}

/// After `k` steps the deadline has moved by `k` ticks and the position by
/// `k` modulo the period; in particular a full fade of 4096 steps returns to
/// where it started.
pub proof fn lemma_fade_after(s: (nat, nat), k: nat)
    requires
        s.1 < fade_period(),
    ensures
        fade_after(s, k) == (s.0 + k, (s.1 + k) % fade_period()),
        fade_after(s, fade_period()) == (s.0 + fade_period(), s.1),
{
    lemma_fade_after_closed(s, k);
    lemma_fade_after_closed(s, fade_period());
    vstd::arithmetic::div_mod::lemma_mod_multiples_vanish(1, s.1 as int, fade_period() as int);
}

} // verus!
