//! Decimal ASCII rendering of unsigned integers into a fixed stack buffer.

use vstd::prelude::*;

verus! {

/// The ASCII code of the decimal digit `d` (for `d < 10`).
pub open spec fn ascii_digit(d: nat) -> u8 {
    (48 + d) as u8
}

/// Decimal digits of `n` with no leading zero; empty for `n == 0`.
pub open spec fn significant_digits(n: nat) -> Seq<u8>
    decreases n,
{
    if n == 0 {
        Seq::empty()
    } else {
        significant_digits(n / 10).push(ascii_digit(n % 10))
    }
}

/// The canonical decimal rendering of `n`: `"0"` for zero, otherwise the
/// digits of `n` without leading zeros, most significant first.
pub open spec fn decimal_digits(n: nat) -> Seq<u8> {
    if n == 0 {
        seq![ascii_digit(0)]
    } else {
        significant_digits(n)
    }
}

/// The number that a string of ASCII decimal digits denotes.
pub open spec fn decimal_value(s: Seq<u8>) -> nat
    decreases s.len(),
{
    if s.len() == 0 {
        0
    } else {
        decimal_value(s.drop_last()) * 10 + (s.last() - 48) as nat
    }
}

/// `10` to the power `k`.
pub open spec fn pow10(k: nat) -> nat
    decreases k,
{
    if k == 0 {
        1
    } else {
        10 * pow10((k - 1) as nat)
    }
}

/// A byte is an ASCII decimal digit.
pub open spec fn is_ascii_digit(b: u8) -> bool {
    48 <= b <= 57
}

proof fn lemma_significant_digits_len_bound(n: nat, k: nat)
    requires
        n < pow10(k),
    ensures
        significant_digits(n).len() <= k,
    decreases k,
{
    if n != 0 {
        assert(k > 0);
        lemma_significant_digits_len_bound(n / 10, (k - 1) as nat);
    }
}

proof fn lemma_significant_digits_nonempty(n: nat)
    requires
        n > 0,
    ensures
        significant_digits(n).len() >= 1,
{
}

/// Every number representable in `u64` has at most 20 decimal digits.
pub proof fn lemma_u64_digits_fit(n: u64)
    ensures
        decimal_digits(n as nat).len() <= 20,
        decimal_digits(n as nat).len() >= 1,
{
    reveal_with_fuel(pow10, 21);
    assert(pow10(20) == 100000000000000000000nat);
    lemma_significant_digits_len_bound(n as nat, 20);
}

proof fn lemma_significant_digits_shape(n: nat)
    ensures
        decimal_value(significant_digits(n)) == n,
        forall|i: int|
            0 <= i < significant_digits(n).len() ==> is_ascii_digit(#[trigger] significant_digits(n)[i]),
        n > 0 ==> significant_digits(n)[0] != 48,
    decreases n,
{
    if n > 0 {
        lemma_significant_digits_shape(n / 10);
        let s = significant_digits(n);
        assert(s.drop_last() =~= significant_digits(n / 10));
        if n / 10 == 0 {
            assert(significant_digits(n / 10) =~= Seq::<u8>::empty());
        }
    }
}

/// Reading back the rendering of `n` gives `n`: every byte is an ASCII
/// digit, the digits denote `n`, and there is no leading zero except in
/// the rendering `"0"` of zero itself.
pub proof fn lemma_decimal_round_trip(n: nat)
    ensures
        decimal_value(decimal_digits(n)) == n,
        forall|i: int|
            0 <= i < decimal_digits(n).len() ==> is_ascii_digit(#[trigger] decimal_digits(n)[i]),
        decimal_digits(n).len() >= 1,
        decimal_digits(n)[0] == 48 ==> n == 0 && decimal_digits(n).len() == 1,
{
    lemma_significant_digits_shape(n);
    if n == 0 {
        assert(decimal_digits(0).drop_last() =~= Seq::<u8>::empty());
    }
}

/// Renders `val` in decimal ASCII into the tail of `buf` and returns the
/// rendered digits, which are the last bytes of `buf`.
pub fn u64_to_dec(val: u64, buf: &mut [u8; 20]) -> (digits: &[u8])
    ensures
        digits@ == decimal_digits(val as nat),
        final(buf)@.subrange(20 - digits@.len(), 20) == digits@,
        forall|i: int| 0 <= i < 20 - digits@.len() ==> final(buf)@[i] == old(buf)@[i],
{
    if val == 0 {
        buf[19] = 48u8;
        let out: &[u8] = buf;
        return slice_subrange_tail(out, 19);
    }
    let ghost orig = val as nat;
    proof {
        lemma_u64_digits_fit(val);
    }
    let mut v: u64 = val;
    let mut pos: usize = 20;
    while v > 0
        invariant
            pos <= 20,
            significant_digits(orig) == significant_digits(v as nat) + buf@.subrange(pos as int, 20),
            (20 - pos) + significant_digits(v as nat).len() == significant_digits(orig).len(),
            significant_digits(orig).len() <= 20,
            forall|i: int| 0 <= i < pos ==> buf@[i] == old(buf)@[i],
        decreases v,
    {
        proof {
            lemma_significant_digits_nonempty(v as nat);
        }
        pos -= 1;
        let d: u8 = (v % 10) as u8;
        buf[pos] = 48u8 + d;
        let ghost prev = v as nat;
        v /= 10;
        proof {
            assert(significant_digits(prev) == significant_digits(v as nat).push(ascii_digit(prev % 10)));
            assert(buf@.subrange(pos as int, 20) =~= seq![ascii_digit(prev % 10)] + buf@.subrange(pos + 1, 20));
            assert(significant_digits(orig) =~= significant_digits(v as nat) + buf@.subrange(pos as int, 20));
        }
    }
    assert(significant_digits(0) =~= Seq::<u8>::empty());
    let out: &[u8] = buf;
    slice_subrange_tail(out, pos)
}

fn slice_subrange_tail(s: &[u8], start: usize) -> (out: &[u8])
    requires
        s@.len() == 20,
        start <= 20,
    ensures
        out@ == s@.subrange(start as int, 20),
{
    vstd::slice::slice_subrange(s, start, 20)
}

} // verus!
