//! Rendering an elapsed time as text with whole-second precision.
//!
//! The clock label shows `h:mm:ss`: the hour count in plain decimal with
//! no leading zeros, minutes and seconds always two digits.

use vstd::prelude::*;

verus! {

/// The decimal digit character for a value below ten.
pub open spec fn spec_digit_char(d: int) -> char {
    if d == 0 {
        '0'
    } else if d == 1 {
        '1'
    } else if d == 2 {
        '2'
    } else if d == 3 {
        '3'
    } else if d == 4 {
        '4'
    } else if d == 5 {
        '5'
    } else if d == 6 {
        '6'
    } else if d == 7 {
        '7'
    } else if d == 8 {
        '8'
    } else {
        '9'
    }
}

/// The decimal rendering of `n`, most significant digit first, with no
/// leading zeros (a lone `0` for zero).
pub open spec fn spec_decimal(n: nat) -> Seq<char>
    decreases n,
{
    if n < 10 {
        seq![spec_digit_char(n as int)]
    } else {
        spec_decimal(n / 10).push(spec_digit_char((n % 10) as int))
    }
}

/// The two-digit rendering of a value below one hundred.
pub open spec fn spec_two_digits(n: nat) -> Seq<char> {
    seq![spec_digit_char((n / 10) as int), spec_digit_char((n % 10) as int)]
}

/// The clock text for `secs` elapsed seconds: hours, a colon, two-digit
/// minutes, a colon, two-digit seconds.
pub open spec fn spec_clock_text(secs: nat) -> Seq<char> {
    spec_decimal(secs / 3600) + seq![':'] + spec_two_digits((secs % 3600) / 60) + seq![':']
        + spec_two_digits(secs % 60)
}

/// The digit character for `d`, which must be below ten.
fn digit_str(d: u64) -> (s: &'static str)
    requires
        d < 10,
    ensures
        s@ == seq![spec_digit_char(d as int)],
{
    proof {
        reveal_strlit("0");
        reveal_strlit("1");
        reveal_strlit("2");
        reveal_strlit("3");
        reveal_strlit("4");
        reveal_strlit("5");
        reveal_strlit("6");
        reveal_strlit("7");
        reveal_strlit("8");
        reveal_strlit("9");
    }
    match d {
        0 => "0",
        1 => "1",
        2 => "2",
        3 => "3",
        4 => "4",
        5 => "5",
        6 => "6",
        7 => "7",
        8 => "8",
        _ => "9",
    }
}

/// Append the decimal rendering of `n` to `out`.
fn push_decimal(n: u64, out: &mut String)
    ensures
        final(out)@ == old(out)@ + spec_decimal(n as nat),
    decreases n,
{
    if n < 10 {
        out.append(digit_str(n));
    } else {
        assert(n / 10 < n) by (nonlinear_arith)
            requires
                n >= 10,
        ;
        push_decimal(n / 10, out);
        out.append(digit_str(n % 10));
        assert(final(out)@ =~= old(out)@ + spec_decimal(n as nat));
    }
}

/// Append the two-digit rendering of `n`, which must be below one
/// hundred, to `out`.
fn push_two_digits(n: u64, out: &mut String)
    requires
        n < 100,
    ensures
        final(out)@ == old(out)@ + spec_two_digits(n as nat),
{
    out.append(digit_str(n / 10));
    out.append(digit_str(n % 10));
    assert(final(out)@ =~= old(out)@ + spec_two_digits(n as nat));
}

/// Format `secs` elapsed seconds as `h:mm:ss` clock text.
pub fn format_clock(secs: u64) -> (text: String)
    ensures
        text@ == spec_clock_text(secs as nat),
{
    let hours: u64 = secs / 3600;
    let rem: u64 = secs % 3600;
    let minutes: u64 = rem / 60;
    let seconds: u64 = secs % 60;
    assert(minutes < 100) by (nonlinear_arith)
        requires
            rem < 3600 && minutes == rem / 60,
    ;
    proof {
        reveal_strlit(":");
    }
    let mut text = String::new();
    push_decimal(hours, &mut text);
    text.append(":");
    push_two_digits(minutes, &mut text);
    text.append(":");
    push_two_digits(seconds, &mut text);
    proof {
        assert(text@ =~= spec_clock_text(secs as nat));
    }
    text
}

} // verus!
