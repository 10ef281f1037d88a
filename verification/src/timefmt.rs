//! Formatting of elapsed time as `HH:MM:SS`, or `{days}d HH:MM:SS` once a
//! full day has passed. Sub-second precision is discarded before the value
//! reaches this module: it works on whole seconds.

use vstd::prelude::*;

verus! {

/// The character for one decimal digit.
pub open spec fn digit_char(d: int) -> char {
    if d == 0 {
        '0'
    } else if d == 1 {
        '1'
    } else if d == 2 {
        '2'
    } else if d == 3 {
        '3'
    } else if d == 4 {
        '4'
    } else if d == 5 {
        '5'
    } else if d == 6 {
        '6'
    } else if d == 7 {
        '7'
    } else if d == 8 {
        '8'
    } else {
        '9'
    }
}

/// The decimal digits of a non-negative number, most significant first,
/// without leading zeros (except for the number zero itself).
pub open spec fn dec_digits(n: int) -> Seq<char>
    recommends
        n >= 0,
    decreases n,
{
    if n < 10 {
        seq![digit_char(n)]
    } else {
        dec_digits(n / 10).push(digit_char(n % 10))
    }
}

/// A number below 100 as exactly two digits, zero-padded.
pub open spec fn two_digits(n: int) -> Seq<char>
    recommends
        0 <= n < 100,
{
    seq![digit_char(n / 10), digit_char(n % 10)]
}

/// What a whole-second duration looks like on screen: `HH:MM:SS`, with a
/// leading `{days}d ` part once at least 24 hours have elapsed.
pub open spec fn spec_format_duration(secs: int) -> Seq<char>
    recommends
        secs >= 0,
{
    let hms = two_digits((secs / 3600) % 24) + seq![':'] + two_digits((secs / 60) % 60)
        + seq![':'] + two_digits(secs % 60);
    if secs / 86400 > 0 {
        dec_digits(secs / 86400) + seq!['d', ' '] + hms
    } else {
        hms
    }
}

/// One decimal digit as a string slice.
fn digit_str(d: u64) -> (r: &'static str)
    requires
        d < 10,
    ensures
        r@ == seq![digit_char(d as int)],
{
    proof {
        reveal_strlit("0");
        reveal_strlit("1");
        reveal_strlit("2");
        reveal_strlit("3");
        reveal_strlit("4");
        reveal_strlit("5");
        reveal_strlit("6");
        reveal_strlit("7");
        reveal_strlit("8");
        reveal_strlit("9");
    }
    let r: &'static str = if d == 0 {
        "0"
    } else if d == 1 {
        "1"
    } else if d == 2 {
        "2"
    } else if d == 3 {
        "3"
    } else if d == 4 {
        "4"
    } else if d == 5 {
        "5"
    } else if d == 6 {
        "6"
    } else if d == 7 {
        "7"
    } else {
        "8"
    };
    if d <= 8 {
        assert(r@ =~= seq![digit_char(d as int)]);
        r
    } else {
        let nine: &'static str = "9";
        assert(nine@ =~= seq![digit_char(d as int)]);
        nine
    }
}

/// Appends the decimal digits of `n` to `out`.
fn push_decimal(out: &mut String, n: u64)
    ensures
        final(out)@ == old(out)@ + dec_digits(n as int),
    decreases n,
{
    if n >= 10 {
        push_decimal(out, n / 10);
    }
    out.append(digit_str(n % 10));
    proof {
        if n >= 10 {
            assert(final(out)@ =~= old(out)@ + dec_digits(n as int));
        } else {
            assert(final(out)@ =~= old(out)@ + dec_digits(n as int));
        }
    }
}

/// Appends `n` to `out` as exactly two digits, zero-padded.
fn push_two_digits(out: &mut String, n: u64)
    requires
        n < 100,
    ensures
        final(out)@ == old(out)@ + two_digits(n as int),
{
    out.append(digit_str(n / 10));
    out.append(digit_str(n % 10));
    assert(final(out)@ =~= old(out)@ + two_digits(n as int));
}

/// Renders a whole-second duration as `HH:MM:SS`, or `{days}d HH:MM:SS`
/// when at least one full day has elapsed.
pub fn format_duration(secs: u64) -> (r: String)
    ensures
        r@ == spec_format_duration(secs as int),
{
    let mut out = String::new();
    let days: u64 = secs / 86400;
    let hours: u64 = (secs / 3600) % 24;
    let minutes: u64 = (secs / 60) % 60;
    let seconds: u64 = secs % 60;
    if days > 0 {
        push_decimal(&mut out, days);
        out.append("d ");
        proof {
            reveal_strlit("d ");
            assert("d "@ =~= seq!['d', ' ']);
        }
    }
    push_two_digits(&mut out, hours);
    out.append(":");
    push_two_digits(&mut out, minutes);
    out.append(":");
    push_two_digits(&mut out, seconds);
    proof {
        reveal_strlit(":");
        assert(":"@ =~= seq![':']);
        assert(out@ =~= spec_format_duration(secs as int));
    }
    out
}

} // verus!
