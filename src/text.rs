//! Plain text building blocks shared by every unit: decimal numbers and the
//! bracketed percentage figure.
use vstd::prelude::*;

verus! {

/// The character of a decimal digit.
pub open spec fn digit_char(d: nat) -> char
    recommends
        d < 10,
{
    if d == 0 { '0' }
    else if d == 1 { '1' }
    else if d == 2 { '2' }
    else if d == 3 { '3' }
    else if d == 4 { '4' }
    else if d == 5 { '5' }
    else if d == 6 { '6' }
    else if d == 7 { '7' }
    else if d == 8 { '8' }
    else { '9' }
}

/// The decimal representation of `n`: no sign, no leading zeros, and `0` for zero.
pub open spec fn decimal(n: nat) -> Seq<char>
    decreases n,
{
    if n < 10 {
        seq![digit_char(n)]
    } else {
        decimal(n / 10).push(digit_char(n % 10))
    }
}

/// A percentage figure, `100 * numerator / denominator`, handed to a unit for display.
#[derive(Clone, Copy, Debug, PartialEq, Eq)]
pub struct Percentage {
    pub numerator: usize,
    pub denominator: usize,
}

/// The percentage as a whole number, truncated toward zero and saturated at `usize::MAX`.
/// A zero denominator behaves as the division `0 / 0` (not a number, shown as 0) or
/// `n / 0` (infinite, saturated) would.
pub open spec fn truncated_percent(p: Percentage) -> nat {
    if p.denominator == 0 {
        if p.numerator == 0 { 0 } else { usize::MAX as nat }
    } else {
        let q = (100 * p.numerator) as nat / p.denominator as nat;
        if q > usize::MAX { usize::MAX as nat } else { q }
    }
}

/// The default percentage text: `[N%]` with `N` the truncated percentage.
pub open spec fn percentage_text(p: Percentage) -> Seq<char> {
    seq!['['] + decimal(truncated_percent(p)) + seq!['%', ']']
}

fn digit_str(d: usize) -> (r: &'static str)
    requires
        d < 10,
    ensures
        r@ == seq![digit_char(d as nat)],
{
    proof {
        reveal_strlit("0");
        reveal_strlit("1");
        reveal_strlit("2");
        reveal_strlit("3");
        reveal_strlit("4");
        reveal_strlit("5");
        reveal_strlit("6");
        reveal_strlit("7");
        reveal_strlit("8");
        reveal_strlit("9");
    }
    if d == 0 { "0" }
    else if d == 1 { "1" }
    else if d == 2 { "2" }
    else if d == 3 { "3" }
    else if d == 4 { "4" }
    else if d == 5 { "5" }
    else if d == 6 { "6" }
    else if d == 7 { "7" }
    else if d == 8 { "8" }
    else { "9" }
}

/// Appends the decimal representation of `n`.
pub fn write_decimal(f: &mut String, n: usize)
    ensures
        final(f)@ == old(f)@ + decimal(n as nat),
    decreases n,
{
    if n < 10 {
        f.append(digit_str(n));
    } else {
        write_decimal(f, n / 10);
        f.append(digit_str(n % 10));
        assert(final(f)@ =~= old(f)@ + decimal(n as nat));
    }
}

/// Appends the default percentage text `[N%]`.
pub fn write_percentage(f: &mut String, p: Percentage)
    ensures
        final(f)@ == old(f)@ + percentage_text(p),
{
    let n: usize = if p.denominator == 0 {
        if p.numerator == 0 { 0 } else { usize::MAX }
    } else {
        let q: u128 = (p.numerator as u128 * 100) / p.denominator as u128;
        if q > usize::MAX as u128 { usize::MAX } else { q as usize }
    };
    proof {
        reveal_strlit("[");
        reveal_strlit("%]");
    }
    f.append("[");
    write_decimal(f, n);
    f.append("%]");
    assert(final(f)@ =~= old(f)@ + percentage_text(p));
}

} // verus!
