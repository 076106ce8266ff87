//! The heartbeat LED pattern: two quick blinks (250 ms on, 250 ms off), then
//! a 1.5 s pause with the LED off, scheduled on absolute kernel-timer deadlines.
//! One heartbeat lasts 2.5 s.

use vstd::prelude::*;
use crate::board::LedLevel;

verus! {

/// How long the LED stays on, and then off, in each quick blink (ms).
pub const BLINK_MS: u64 = 250;

/// Length of the pause after the two blinks (ms).
pub const PAUSE_MS: u64 = 1500;

/// Number of steps in one heartbeat: on, off, on, off, pause.
pub const PHASES: u8 = 5;

/// The LED change that starts phase `p` (none for the pause).
pub open spec fn phase_led(p: nat) -> Option<LedLevel> {
    if p == 0 || p == 2 {
        Some(LedLevel::On)
    } else if p == 1 || p == 3 {
        Some(LedLevel::Off)
    } else {
        None
    }
}

/// How long phase `p` lasts (ms).
pub open spec fn phase_length(p: nat) -> nat {
    if p == 4 {
        PAUSE_MS as nat
    } else {
        BLINK_MS as nat
    }
}

/// One step of the schedule on its view `(deadline, phase)`.
pub open spec fn heartbeat_next(s: (nat, nat)) -> (nat, nat) {
    (s.0 + phase_length(s.1), ((s.1 + 1) % (PHASES as nat)) as nat)
}

/// The view after `k` steps.
pub open spec fn heartbeat_after(s: (nat, nat), k: nat) -> (nat, nat)
    decreases k,
{
    if k == 0 {
        s
    } else {
        heartbeat_next(heartbeat_after(s, (k - 1) as nat))
    }
}

/// What the task does in one step: change the LED (or not), then sleep until
/// `wake_at`.
#[derive(Clone, Copy, Debug, PartialEq, Eq, Structural)]
pub struct HeartbeatAction {
    pub led: Option<LedLevel>,
    pub wake_at: u64,
}

/// The heartbeat schedule: the last deadline and the phase to run next.
pub struct Heartbeat {
    deadline: u64,
    phase: u8,
}

impl View for Heartbeat {
    type V = (nat, nat);

    closed spec fn view(&self) -> (nat, nat) {
        (self.deadline as nat, self.phase as nat)
    }
}

impl Heartbeat {
    /// The schedule is in one of its five phases.
    pub closed spec fn wf(self) -> bool {
        self.phase < PHASES
    }

    /// A schedule that starts its first blink at time `now`.
    pub fn new(now: u64) -> (h: Heartbeat)
        ensures
            h.wf(),
            h@ == (now as nat, 0nat),
    {
        Heartbeat { deadline: now, phase: 0 }
    }

    /// The last deadline (ms).
    pub fn deadline(&self) -> (d: u64)
        ensures
            d == self@.0,
    {
        self.deadline
    }

    /// How long the phase to run next lasts (ms).
    pub fn next_length(&self) -> (len: u64)
        requires
            self.wf(),
        ensures
            len == phase_length(self@.1),
    {
        if self.phase == 4 {
            PAUSE_MS
        } else {
            BLINK_MS
        }
    }

    /// Runs one phase: the LED change that starts it and the deadline that
    /// ends it. The deadline must not overflow `u64`.
    pub fn step(&mut self) -> (action: HeartbeatAction)
        requires
            old(self).wf(),
            old(self)@.0 + phase_length(old(self)@.1) <= u64::MAX,
        ensures
            final(self).wf(),
            final(self)@ == heartbeat_next(old(self)@),
            action.led == phase_led(old(self)@.1),
            action.wake_at == final(self)@.0,
    {
        let phase = self.phase;
        let (led, length) = if phase == 0 || phase == 2 {
            (Some(LedLevel::On), BLINK_MS)
        } else if phase == 1 || phase == 3 {
            (Some(LedLevel::Off), BLINK_MS)
        } else {
            (None, PAUSE_MS)
        };
        self.deadline = self.deadline + length;
        self.phase = if phase + 1 == PHASES { 0 } else { phase + 1 };
        HeartbeatAction { led, wake_at: self.deadline }
    }
}

/// One full heartbeat (five steps) takes exactly 2.5 s and returns to the same
/// phase; the LED is lit for 500 ms of it.
pub proof fn lemma_heartbeat_period(s: (nat, nat))
    requires
        s.1 < PHASES,
    ensures
        heartbeat_after(s, 5) == (s.0 + 2500, s.1),
        phase_length(0) + phase_length(2) == 500,
{
    reveal_with_fuel(heartbeat_after, 6);
}

/// Deadlines only move forward: every step postpones the deadline by at
/// least 250 ms.
pub proof fn lemma_heartbeat_monotonic(s: (nat, nat))
    ensures
        heartbeat_next(s).0 >= s.0 + BLINK_MS,
{
}

/// Starting from phase 0 at time `t`, after `k` full heartbeats the schedule
/// is at phase 0 at time `t + 2500 k`.
pub proof fn lemma_heartbeat_cycles(t: nat, k: nat)
    ensures
        heartbeat_after((t, 0), 5 * k) == (t + 2500 * k, 0nat),
    decreases k,
{
    if k > 0 {
        lemma_heartbeat_cycles(t, (k - 1) as nat);
        lemma_heartbeat_after_add((t, 0), 5 * (k - 1) as nat, 5);
        lemma_heartbeat_period(heartbeat_after((t, 0), 5 * (k - 1) as nat));
    }
}

proof fn lemma_heartbeat_after_add(s: (nat, nat), a: nat, b: nat)
    ensures
        heartbeat_after(s, a + b) == heartbeat_after(heartbeat_after(s, a), b),
    decreases b,
{
    if b > 0 {
        lemma_heartbeat_after_add(s, a, (b - 1) as nat);
    }
}

/// The phases run in order, whatever the deadline: each step goes from
/// phase `p` to phase `p + 1` (wrapping after the pause) and moves the
/// deadline forward.
pub proof fn lemma_heartbeat_phase_order(s: (nat, nat))
    requires
        s.1 < PHASES,
    ensures
        heartbeat_next(s).1 == (s.1 + 1) % 5,
        heartbeat_next(s).0 > s.0,
{
}

/// From phase 0 at any time `t`, five steps give: LED on, wake at `t + 250`;
/// LED off, wake at `t + 500`; LED on, wake at `t + 750`; LED off, wake at
/// `t + 1000`; no change, wake at `t + 2500`; and the schedule is back at
/// phase 0.
pub proof fn lemma_heartbeat_pattern(t: nat)
    ensures
        phase_led(heartbeat_after((t, 0), 0).1) == Some(LedLevel::On),
        heartbeat_after((t, 0), 1).0 == t + 250,
        phase_led(heartbeat_after((t, 0), 1).1) == Some(LedLevel::Off),
        heartbeat_after((t, 0), 2).0 == t + 500,
        phase_led(heartbeat_after((t, 0), 2).1) == Some(LedLevel::On),
        heartbeat_after((t, 0), 3).0 == t + 750,
        phase_led(heartbeat_after((t, 0), 3).1) == Some(LedLevel::Off),
        heartbeat_after((t, 0), 4).0 == t + 1000,
        phase_led(heartbeat_after((t, 0), 4).1) == None::<LedLevel>,
        heartbeat_after((t, 0), 5) == (t + 2500, 0nat),
{
    reveal_with_fuel(heartbeat_after, 6);
}

} // verus!
