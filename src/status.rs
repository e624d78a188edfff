//! Text for the status surface.

use vstd::prelude::*;
use crate::utils::chars_to_string;

verus! {

pub open spec fn digit_char(d: nat) -> char {
    ((d + 48) as u8) as char
}

/// Decimal digits of a number, most significant first, without leading zeros.
pub open spec fn decimal_text(n: nat) -> Seq<char>
    decreases n,
{
    if n < 10 {
        seq![digit_char(n)]
    } else {
        decimal_text(n / 10).push(digit_char(n % 10))
    }
}

/// A duration in human-readable form: `45s`, `2m`, or `2m 30s`.
pub open spec fn duration_text(seconds: nat) -> Seq<char> {
    if seconds >= 60 {
        if seconds % 60 > 0 {
            decimal_text(seconds / 60) + seq!['m', ' '] + decimal_text(seconds % 60) + seq!['s']
        } else {
            decimal_text(seconds / 60) + seq!['m']
        }
    } else {
        decimal_text(seconds) + seq!['s']
    }
}

fn push_decimal(out: &mut Vec<char>, n: u64)
    ensures
        final(out)@ == old(out)@ + decimal_text(n as nat),
    decreases n,
{
    if n >= 10 {
        push_decimal(out, n / 10);
    }
    let d = (n % 10) as u8;
    out.push((d + 48) as char);
    assert(out@ =~= old(out)@ + decimal_text(n as nat));
}

/// Formats a number of seconds as `45s`, `2m` or `2m 30s`.
pub fn format_duration(seconds: u64) -> (r: String)
    ensures
        r@ == duration_text(seconds as nat),
{
    let mut out: Vec<char> = Vec::new();
    if seconds >= 60 {
        let mins = seconds / 60;
        let secs = seconds % 60;
        push_decimal(&mut out, mins);
        out.push('m');
        if secs > 0 {
            out.push(' ');
            push_decimal(&mut out, secs);
            out.push('s');
        }
    } else {
        push_decimal(&mut out, seconds);
        out.push('s');
    }
    assert(out@ =~= duration_text(seconds as nat));
    chars_to_string(&out)
}

} // verus!
