//! The IPC client ("ping"): which count it sends next and how it reacts to
//! the outcome of each send.

use vstd::prelude::*;
use vstd::bytes::spec_u32_to_le_bytes;

verus! {

/// Largest count that is sent before the counter wraps back to 1.
pub const MAX_COUNT: u32 = 10;

/// Pause between two delivered counts, in CPU cycles (3 s at 12 MHz).
pub const PAUSE_DELAY: u32 = 36_000_000;

/// The count that follows `counter`: one more, wrapping to 1 after
/// `MAX_COUNT` (any counter at or above `MAX_COUNT` wraps).
pub open spec fn spec_next_count(counter: u32) -> u32 {
    if counter >= MAX_COUNT {
        1
    } else {
        (counter + 1) as u32
    }
}

/// The count that follows `counter` after `k` deliveries.
pub open spec fn count_after(counter: u32, k: nat) -> u32
    decreases k,
{
    if k == 0 {
        counter
    } else {
        spec_next_count(count_after(counter, (k - 1) as nat))
    }
}

/// Outcome of one `sys_send` of a count to the LED server.
#[derive(Clone, Copy, Debug, PartialEq, Eq, Structural)]
pub enum SendOutcome {
    /// The server received the count and replied.
    Delivered,
    /// The server had died and restarted; the send must be retried with the
    /// server's new generation.
    PeerRestarted,
}

/// What the client does after a send.
#[derive(Clone, Copy, Debug, PartialEq, Eq, Structural)]
pub struct PingStep {
    /// The count to send next.
    pub counter: u32,
    /// Whether to pause for `PAUSE_DELAY` before sending it.
    pub pause: bool,
}

/// The count that follows `counter`.
pub fn next_count(counter: u32) -> (next: u32)
    ensures
        next == spec_next_count(counter),
{
    if counter >= MAX_COUNT {
        1
    } else {
        counter + 1
    }
}

/// The decision after one send of `counter`: a delivered count is followed by
/// a pause and the next count; a send to a restarted server is retried at once
/// with the same count.
pub fn after_send(counter: u32, outcome: SendOutcome) -> (step: PingStep)
    ensures
        outcome == SendOutcome::Delivered ==> step == (PingStep {
            counter: spec_next_count(counter),
            pause: true,
        }),
        outcome == SendOutcome::PeerRestarted ==> step == (PingStep { counter, pause: false }),
{
    match outcome {
        SendOutcome::Delivered => PingStep { counter: next_count(counter), pause: true },
        SendOutcome::PeerRestarted => PingStep { counter, pause: false },
    }
}

/// `u32::to_le_bytes`: the four little-endian bytes of `x`.
#[verifier::external_body]
fn u32_le_bytes(x: u32) -> (bytes: [u8; 4])
    ensures
        bytes@ == spec_u32_to_le_bytes(x),
{
    x.to_le_bytes()
}

/// The IPC message that carries `counter`: its four little-endian bytes.
pub fn count_message(counter: u32) -> (msg: [u8; 4])
    ensures
        msg@ == spec_u32_to_le_bytes(counter),
        msg@.len() == 4,
{
    proof {
        vstd::bytes::lemma_auto_spec_u32_to_from_le_bytes();
    }
    u32_le_bytes(counter)
}

/// Whatever the counter, the next one lies in `1..=MAX_COUNT`.
pub proof fn lemma_next_count_in_range(counter: u32)
    ensures
        1 <= spec_next_count(counter) <= MAX_COUNT,
{
}

/// Starting from 1, the count after `k` deliveries is `k % 10 + 1`: the
/// client cycles through 1, 2, ..., 10, 1, ...
pub proof fn lemma_count_cycle(k: nat)
    ensures
        count_after(1, k) == k % 10 + 1,
    decreases k,
{
    if k > 0 {
        lemma_count_cycle((k - 1) as nat);
    }
}

/// Every count in `1..=MAX_COUNT` comes back after exactly ten deliveries.
pub proof fn lemma_count_period(counter: u32)
    requires
        1 <= counter <= MAX_COUNT,
    ensures
        count_after(counter, 10) == counter,
        forall|k: nat| 0 < k < 10 ==> count_after(counter, k) != counter,
{
    reveal_with_fuel(count_after, 11);
    assert forall|k: nat| 0 < k < 10 implies count_after(counter, k) != counter by {
        lemma_count_after_closed(counter, k);
    }
    lemma_count_after_closed(counter, 10);
}

proof fn lemma_count_after_closed(counter: u32, k: nat)
    requires
        1 <= counter <= MAX_COUNT,
    ensures
        count_after(counter, k) == (counter - 1 + k) % 10 + 1,
    decreases k,
{
    if k > 0 {
        lemma_count_after_closed(counter, (k - 1) as nat);
    }
}

} // verus!
