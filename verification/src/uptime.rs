//! The uptime reporter: every 5 seconds it renders the time since boot, in
//! whole seconds, as the line `uptime: <seconds>s\r\n`.

use vstd::prelude::*;
use crate::decimal::{decimal_digits, decimal_value, is_ascii_digit, u64_to_dec, lemma_decimal_round_trip};

verus! {

/// Time between two reports (ms): 5 s.
pub const REPORT_PERIOD_MS: u64 = 5000;

/// The bytes of `"uptime: "`.
pub open spec fn report_prefix() -> Seq<u8> {
    seq![117u8, 112u8, 116u8, 105u8, 109u8, 101u8, 58u8, 32u8]
}

/// The bytes of `"s\r\n"`.
pub open spec fn report_suffix() -> Seq<u8> {
    seq![115u8, 13u8, 10u8]
}

/// The report line for a kernel time of `now_ms` milliseconds: the whole
/// seconds, in decimal, between the prefix and the suffix.
pub open spec fn uptime_line(now_ms: u64) -> Seq<u8> {
    report_prefix() + decimal_digits((now_ms / 1000) as nat) + report_suffix()
}

/// The deadline of the report after the one due at `deadline`. The deadline
/// must not overflow `u64`.
pub fn next_report_at(deadline: u64) -> (next: u64)
    requires
        deadline + REPORT_PERIOD_MS <= u64::MAX,
    ensures
        next == deadline + REPORT_PERIOD_MS,
{
    deadline + REPORT_PERIOD_MS
}

/// Renders the report line for a kernel time of `now_ms` milliseconds.
pub fn uptime_report(now_ms: u64) -> (line: Vec<u8>)
    ensures
        line@ == uptime_line(now_ms),
{
    let mut buf = [0u8; 20];
    let digits = u64_to_dec(now_ms / 1000, &mut buf);
    let mut line: Vec<u8> = vec![117u8, 112u8, 116u8, 105u8, 109u8, 101u8, 58u8, 32u8];
    assert(line@ =~= report_prefix());
    let n = digits.len();
    let mut i: usize = 0;
    while i < n
        invariant
            n == digits@.len(),
            i <= n,
            line@ == report_prefix() + digits@.subrange(0, i as int),
        decreases n - i,
    {
        line.push(digits[i]);
        i = i + 1;
        assert(line@ =~= report_prefix() + digits@.subrange(0, i as int));
    }
    line.push(115u8);
    line.push(13u8);
    line.push(10u8);
    assert(digits@.subrange(0, n as int) =~= digits@);
    assert(line@ =~= uptime_line(now_ms));
    line
}

/// A report line is the 8 bytes `"uptime: "`, then the whole seconds of
/// `now_ms` in decimal (ASCII digits, no leading zero except for `"0"`), then
/// the 3 bytes `"s\r\n"`: reading back the bytes between prefix and suffix
/// gives `now_ms / 1000`.
pub proof fn lemma_uptime_line_reads_back(now_ms: u64)
    ensures
        uptime_line(now_ms).len() >= 12,
        uptime_line(now_ms).subrange(0, 8) == seq![117u8, 112u8, 116u8, 105u8, 109u8, 101u8, 58u8, 32u8],
        uptime_line(now_ms).subrange(uptime_line(now_ms).len() - 3, uptime_line(now_ms).len() as int)
            == seq![115u8, 13u8, 10u8],
        decimal_value(uptime_line(now_ms).subrange(8, uptime_line(now_ms).len() - 3)) == now_ms / 1000,
        forall|i: int|
            8 <= i < uptime_line(now_ms).len() - 3 ==> is_ascii_digit(#[trigger] uptime_line(now_ms)[i]),
        uptime_line(now_ms)[8] == 48 ==> uptime_line(now_ms).len() == 12 && now_ms / 1000 == 0,
{
    let secs = (now_ms / 1000) as nat;
    lemma_decimal_round_trip(secs);
    let d = decimal_digits(secs);
    let line = uptime_line(now_ms);
    let n = line.len();
    assert(n == 11 + d.len());
    assert(line.subrange(0, 8) =~= seq![117u8, 112u8, 116u8, 105u8, 109u8, 101u8, 58u8, 32u8]);
    assert(line.subrange(n - 3, n as int) =~= seq![115u8, 13u8, 10u8]);
    assert(line.subrange(8, n - 3) =~= d);
    assert forall|i: int| 8 <= i < n - 3 implies is_ascii_digit(#[trigger] line[i]) by {
        assert(line[i] == d[i - 8]);
    }
    assert(line[8] == d[0]);
}

} // verus!
