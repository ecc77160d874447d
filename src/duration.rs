//! Decimal text and the `H h M m S s` rendering of durations.

use vstd::prelude::*;
use vstd::string::StringExecFns;

verus! {

/// The character of a decimal digit.
pub open spec fn digit_char(d: nat) -> char {
    if d == 0 { '0' }
    else if d == 1 { '1' }
    else if d == 2 { '2' }
    else if d == 3 { '3' }
    else if d == 4 { '4' }
    else if d == 5 { '5' }
    else if d == 6 { '6' }
    else if d == 7 { '7' }
    else if d == 8 { '8' }
    else { '9' }
}

/// The decimal digits of `n`, most significant first, without leading zeros.
pub open spec fn decimal(n: nat) -> Seq<char>
    decreases n,
{
    if n < 10 {
        seq![digit_char(n)]
    } else {
        decimal(n / 10) + seq![digit_char(n % 10)]
    }
}

/// The text of a duration given in milliseconds: whole hours, minutes and
/// seconds, the sub-second part dropped.
pub open spec fn duration_text(ms: nat) -> Seq<char> {
    let s = ms / 1000;
    decimal(s / 3600) + "h "@ + decimal((s % 3600) / 60) + "m "@ + decimal(s % 60) + "s"@
}

fn digit_str(d: u128) -> (r: &'static str)
    requires
        d < 10,
    ensures
        r@ == seq![digit_char(d as nat)],
{
    proof {
        reveal_strlit("0");
        reveal_strlit("1");
        reveal_strlit("2");
        reveal_strlit("3");
        reveal_strlit("4");
        reveal_strlit("5");
        reveal_strlit("6");
        reveal_strlit("7");
        reveal_strlit("8");
        reveal_strlit("9");
    }
    if d == 0 { "0" }
    else if d == 1 { "1" }
    else if d == 2 { "2" }
    else if d == 3 { "3" }
    else if d == 4 { "4" }
    else if d == 5 { "5" }
    else if d == 6 { "6" }
    else if d == 7 { "7" }
    else if d == 8 { "8" }
    else { "9" }
}

/// Appends the decimal digits of `n` to `out`.
pub fn push_decimal(out: &mut String, n: u128)
    ensures
        final(out)@ == old(out)@ + decimal(n as nat),
    decreases n,
{
    if n < 10 {
        out.append(digit_str(n));
    } else {
        push_decimal(out, n / 10);
        out.append(digit_str(n % 10));
        assert(final(out)@ == old(out)@ + decimal(n as nat));
    }
}

/// Renders a duration of `ms` milliseconds as `H h M m S s`.
pub fn fmt_dur(ms: u128) -> (r: String)
    ensures
        r@ == duration_text(ms as nat),
{
    let s: u128 = ms / 1000;
    let mut out = String::new();
    push_decimal(&mut out, s / 3600);
    out.append("h ");
    push_decimal(&mut out, (s % 3600) / 60);
    out.append("m ");
    push_decimal(&mut out, s % 60);
    out.append("s");
    assert(out@ =~= duration_text(ms as nat));
    out
}

} // verus!
