//! The LED server ("pong"): how many blinks a request asks for, and the
//! on/off sequence that performs them.

use vstd::prelude::*;
use vstd::bytes::{spec_u32_from_le_bytes, spec_u32_to_le_bytes};
use crate::board::LedLevel;

verus! {

/// Delay after each LED change, in CPU cycles (0.5 s at 12 MHz).
pub const BLINK_DELAY: u32 = 6_000_000;

/// The blink count that a received message asks for: the little-endian
/// `u32` in its first four bytes; 0 when the message is shorter or could not
/// be received.
pub open spec fn requested_blinks(data: Option<Seq<u8>>) -> u32 {
    match data {
        Some(d) => if d.len() >= 4 {
            spec_u32_from_le_bytes(d.subrange(0, 4))
        } else {
            0
        },
        None => 0,
    }
}

/// The view of a received message body, if any.
pub open spec fn message_view(data: Option<&[u8]>) -> Option<Seq<u8>> {
    match data {
        Some(d) => Some(d@),
        None => None,
    }
}

/// Parses the blink count out of a received message (`None` when receiving
/// failed).
pub fn blink_count(data: Option<&[u8]>) -> (count: u32)
    ensures
        count == requested_blinks(message_view(data)),
{
    match data {
        Some(d) => {
            if d.len() >= 4 {
                let head = vstd::slice::slice_subrange(d, 0, 4);
                vstd::bytes::u32_from_le_bytes(head)
            } else {
                0
            }
        },
        None => 0,
    }
}

/// A message that the client built from a count asks for exactly that many
/// blinks.
pub proof fn lemma_message_round_trip(count: u32)
    ensures
        requested_blinks(Some(spec_u32_to_le_bytes(count))) == count,
{
    vstd::bytes::lemma_auto_spec_u32_to_from_le_bytes();
    assert(spec_u32_to_le_bytes(count).subrange(0, 4) =~= spec_u32_to_le_bytes(count));
}

/// The LED changes that perform `n` blinks: on, off, on, off, ... (`2n`
/// changes).
pub open spec fn blink_pattern(n: nat) -> Seq<LedLevel> {
    Seq::new(2 * n, |i: int| if i % 2 == 0 { LedLevel::On } else { LedLevel::Off })
}

/// The changes still to come for `remaining` blinks not yet started, after
/// the LED was left lit (`lit`) or dark.
pub open spec fn pending_changes(remaining: nat, lit: bool) -> Seq<LedLevel>
    decreases 2 * remaining + (if lit { 1int } else { 0int }),
{
    if lit {
        seq![LedLevel::Off] + pending_changes(remaining, false)
    } else if remaining > 0 {
        seq![LedLevel::On] + pending_changes((remaining - 1) as nat, true)
    } else {
        Seq::empty()
    }
}

/// The sequence of LED changes for a number of blinks, handed out one at a
/// time.
pub struct BlinkTrain {
    remaining: u32,
    lit: bool,
}

impl BlinkTrain {
    /// The LED changes that have not been handed out yet.
    pub closed spec fn changes(self) -> Seq<LedLevel> {
        pending_changes(self.remaining as nat, self.lit)
    }

    /// A train for `count` blinks, starting with the LED dark.
    pub fn new(count: u32) -> (train: BlinkTrain)
        ensures
            train.changes() == blink_pattern(count as nat),
    {
        proof {
            lemma_pending_is_pattern(count as nat);
        }
        BlinkTrain { remaining: count, lit: false }
    }

    /// The next LED change, or `None` once all blinks are done.
    pub fn next_change(&mut self) -> (change: Option<LedLevel>)
        ensures
            old(self).changes().len() == 0 ==> change.is_none() && final(self).changes() == old(
                self,
            ).changes(),
            old(self).changes().len() > 0 ==> change == Some(old(self).changes()[0])
                && final(self).changes() == old(self).changes().drop_first(),
    {
        if self.lit {
            self.lit = false;
            proof {
                assert(old(self).changes().drop_first() =~= self.changes());
            }
            Some(LedLevel::Off)
        } else if self.remaining > 0 {
            self.remaining = self.remaining - 1;
            self.lit = true;
            proof {
                assert(old(self).changes().drop_first() =~= self.changes());
            }
            Some(LedLevel::On)
        } else {
            None
        }
    }
}

/// With the LED dark, the pending changes for `n` blinks are exactly the
/// blink pattern: `2n` changes alternating on and off, starting with on.
pub proof fn lemma_pending_is_pattern(n: nat)
    ensures
        pending_changes(n, false) == blink_pattern(n),
        blink_pattern(n).len() == 2 * n,
    decreases n,
{
    if n > 0 {
        lemma_pending_is_pattern((n - 1) as nat);
        let p = pending_changes(n, false);
        assert(pending_changes((n - 1) as nat, true) == seq![LedLevel::Off] + pending_changes((n - 1) as nat, false));
        assert(p == seq![LedLevel::On] + (seq![LedLevel::Off] + pending_changes((n - 1) as nat, false)));
        assert forall|i: int| 0 <= i < 2 * n implies #[trigger] p[i] == blink_pattern(n)[i] by {
            if i >= 2 {
                assert(p[i] == blink_pattern((n - 1) as nat)[i - 2]);
            }
        }
        assert(p =~= blink_pattern(n));
    } else {
        assert(pending_changes(0, false) =~= blink_pattern(0));
    }
}

/// A message shorter than four bytes, or a failed receive, asks for no
/// blinks.
pub proof fn lemma_short_message_asks_nothing(d: Seq<u8>)
    requires
        d.len() < 4,
    ensures
        requested_blinks(Some(d)) == 0,
        requested_blinks(None) == 0,
{
}

/// For a message of at least four bytes, the requested count is the number
/// whose little-endian bytes are the message's first four bytes; the rest of
/// the message does not matter.
pub proof fn lemma_count_is_first_four_bytes(d: Seq<u8>, e: Seq<u8>)
    requires
        d.len() >= 4,
        e.len() >= 4,
        d.subrange(0, 4) == e.subrange(0, 4),
    ensures
        spec_u32_to_le_bytes(requested_blinks(Some(d))) == d.subrange(0, 4),
        requested_blinks(Some(d)) == requested_blinks(Some(e)),
{
    vstd::bytes::lemma_auto_spec_u32_to_from_le_bytes();
}

/// The changes for `n` blinks number `2n`, start with on, end with off, and
/// every change differs from the one before it.
pub proof fn lemma_blink_pattern_alternates(n: nat)
    ensures
        blink_pattern(n).len() == 2 * n,
        n > 0 ==> blink_pattern(n)[0] == LedLevel::On,
        n > 0 ==> blink_pattern(n)[2 * n - 1] == LedLevel::Off,
        forall|i: int| 0 <= i < 2 * n - 1 ==> #[trigger] blink_pattern(n)[i] != blink_pattern(n)[i + 1],
{
}

} // verus!
