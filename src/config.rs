//! Optional overrides of the stored settings, given as text (for instance
//! from environment variables), and the precedence between the sources.

use vstd::prelude::*;
use crate::app_state::{
    AUTO_LOCK_MAX_SECONDS, AUTO_LOCK_MIN_SECONDS, AUTO_UNLOCK_DEFAULT_SECONDS,
    AUTO_UNLOCK_MAX_SECONDS, AUTO_UNLOCK_MIN_SECONDS,
};
use crate::config_file::{hotkey_check, to_upper, upper_of, Config};

verus! {

pub open spec fn is_digit(c: char) -> bool {
    '0' <= c && c <= '9'
}

pub open spec fn digit_value(c: char) -> int {
    (c as u32) as int - ('0' as u32) as int
}

/// The value of a string of decimal digits.
pub open spec fn decimal_value(digits: Seq<char>) -> int
    decreases digits.len(),
{
    if digits.len() == 0 {
        0
    } else {
        decimal_value(digits.drop_last()) * 10 + digit_value(digits.last())
    }
}

pub open spec fn all_digits(s: Seq<char>) -> bool {
    forall|i: int| 0 <= i < s.len() ==> is_digit(#[trigger] s[i])
}

/// The digits after an optional leading `+`.
pub open spec fn unsigned_digits(s: Seq<char>) -> Seq<char> {
    if s.len() > 0 && s[0] == '+' {
        s.drop_first()
    } else {
        s
    }
}

/// An unsigned 64-bit integer written as an optional `+` followed by one or
/// more decimal digits, the notation `u64::from_str` accepts.
pub open spec fn parsed_u64(s: Seq<char>) -> Option<u64> {
    let d = unsigned_digits(s);
    if d.len() > 0 && all_digits(d) && decimal_value(d) <= u64::MAX {
        Some(decimal_value(d) as u64)
    } else {
        None
    }
}

proof fn lemma_decimal_nonneg(d: Seq<char>)
    requires
        all_digits(d),
    ensures
        decimal_value(d) >= 0,
    decreases d.len(),
{
    if d.len() > 0 {
        lemma_decimal_nonneg(d.drop_last());
    }
}

proof fn lemma_decimal_prefix_le(d: Seq<char>, k: int)
    requires
        all_digits(d),
        0 <= k <= d.len(),
    ensures
        decimal_value(d.subrange(0, k)) <= decimal_value(d),
    decreases d.len(),
{
    if k < d.len() {
        let p = d.drop_last();
        lemma_decimal_prefix_le(p, k);
        assert(p.subrange(0, k) =~= d.subrange(0, k));
        lemma_decimal_nonneg(p);
    } else {
        assert(d.subrange(0, k) =~= d);
    }
}

proof fn lemma_parsed_none(s: Seq<char>)
    requires
        !all_digits(unsigned_digits(s)) || decimal_value(unsigned_digits(s)) > u64::MAX,
    ensures
        parsed_u64(s) is None,
{
}

/// Parses an unsigned decimal integer.
pub fn parse_u64(text: &str) -> (r: Option<u64>)
    ensures
        r == parsed_u64(text@),
{
    let n = text.unicode_len();
    let start: usize = if n > 0 && text.get_char(0) == '+' { 1 } else { 0 };
    let ghost d = unsigned_digits(text@);
    assert(d =~= text@.subrange(start as int, n as int));
    if start == n {
        return None;
    }
    let mut value: u64 = 0;
    let mut i: usize = start;
    while i < n
        invariant
            n == text@.len(),
            start <= i <= n,
            d == text@.subrange(start as int, n as int),
            d == unsigned_digits(text@),
            all_digits(d.subrange(0, i - start)),
            value as int == decimal_value(d.subrange(0, i - start)),
        decreases n - i,
    {
        let c = text.get_char(i);
        let ghost prefix = d.subrange(0, i - start);
        let ghost next = d.subrange(0, i + 1 - start);
        assert(next.drop_last() =~= prefix);
        assert(next.last() == c);
        if !('0' <= c && c <= '9') {
            assert(!is_digit(d[i - start]));
            proof {
                lemma_parsed_none(text@);
            }
            return None;
        }
        let digit = (c as u32 - '0' as u32) as u64;
        let r1 = value.checked_mul(10);
        let scaled = match r1 {
            Some(v) => v,
            None => {
                proof {
                    if all_digits(d) {
                        assert(all_digits(next));
                        assert(decimal_value(next) == decimal_value(prefix) * 10 + digit_value(c));
                        assert(digit_value(c) >= 0);
                        lemma_decimal_prefix_le(d, i + 1 - start);
                    }
                    lemma_parsed_none(text@);
                }
                return None;
            },
        };
        let r2 = scaled.checked_add(digit);
        match r2 {
            Some(v) => {
                value = v;
            },
            None => {
                proof {
                    if all_digits(d) {
                        assert(all_digits(next));
                        assert(decimal_value(next) == decimal_value(prefix) * 10 + digit_value(c));
                        lemma_decimal_prefix_le(d, i + 1 - start);
                    }
                    lemma_parsed_none(text@);
                }
                return None;
            },
        }
        assert(all_digits(next));
        i = i + 1;
    }
    assert(d.subrange(0, n - start) =~= d);
    Some(value)
}

/// A timeout override: the number when the text is one within
/// `[min, max]`, else `None`.
pub open spec fn timeout_override(value: Option<&str>, min: u64, max: u64) -> Option<u64> {
    match value {
        Some(v) => match parsed_u64(v@) {
            Some(s) => if min <= s <= max {
                Some(s)
            } else {
                None
            },
            None => None,
        },
        None => None,
    }
}

/// A hotkey override: the upper-cased text when it is a valid hotkey.
pub open spec fn hotkey_override(value: Option<&str>) -> Option<Seq<char>> {
    match value {
        Some(v) => if hotkey_check(v@) is Ok {
            Some(upper_of(v@))
        } else {
            None
        },
        None => None,
    }
}

/// The safety auto-unlock override: a value in the accepted range enables
/// it; `0`, an out-of-range value, text that is not a number, and no text
/// all give `None`, leaving the stored setting in force.
pub fn parse_auto_unlock_timeout(value: Option<&str>) -> (r: Option<u64>)
    ensures
        r == timeout_override(value, AUTO_UNLOCK_MIN_SECONDS, AUTO_UNLOCK_MAX_SECONDS),
{
    match value {
        Some(v) => match parse_u64(v) {
            Some(s) => if AUTO_UNLOCK_MIN_SECONDS <= s && s <= AUTO_UNLOCK_MAX_SECONDS {
                Some(s)
            } else {
                None
            },
            None => None,
        },
        None => None,
    }
}

/// The inactivity auto-lock override: a value in the accepted range, or
/// `None`.
pub fn parse_auto_lock_timeout(value: Option<&str>) -> (r: Option<u64>)
    ensures
        r == timeout_override(value, AUTO_LOCK_MIN_SECONDS, AUTO_LOCK_MAX_SECONDS),
{
    match value {
        Some(v) => match parse_u64(v) {
            Some(s) => if AUTO_LOCK_MIN_SECONDS <= s && s <= AUTO_LOCK_MAX_SECONDS {
                Some(s)
            } else {
                None
            },
            None => None,
        },
        None => None,
    }
}

fn parse_hotkey(value: Option<&str>) -> (r: Option<String>)
    ensures
        hotkey_override(value) matches Some(u) ==> r matches Some(k) && k@ == u,
        hotkey_override(value) is None ==> r is None,
{
    match value {
        Some(v) => match Config::validate_hotkey(v) {
            Ok(()) => Some(to_upper(v)),
            Err(_) => None,
        },
        None => None,
    }
}

/// The lock hotkey override: the upper-cased letter when the text is a
/// valid hotkey, else `None`.
pub fn parse_lock_hotkey(value: Option<&str>) -> (r: Option<String>)
    ensures
        hotkey_override(value) matches Some(u) ==> r matches Some(k) && k@ == u,
        hotkey_override(value) is None ==> r is None,
{
    parse_hotkey(value)
}

/// The talk hotkey override: the upper-cased letter when the text is a
/// valid hotkey, else `None`.
pub fn parse_talk_hotkey(value: Option<&str>) -> (r: Option<String>)
    ensures
        hotkey_override(value) matches Some(u) ==> r matches Some(k) && k@ == u,
        hotkey_override(value) is None ==> r is None,
{
    parse_hotkey(value)
}

/// The precedence of the auto-unlock sources: the override, then the stored
/// value (0: disabled), then the built-in default (0: disabled).
pub open spec fn resolved_auto_unlock(env_value: Option<u64>, config_value: u64) -> Option<u64> {
    if env_value is Some {
        env_value
    } else if config_value != 0 {
        Some(config_value)
    } else if AUTO_UNLOCK_DEFAULT_SECONDS != 0 {
        Some(AUTO_UNLOCK_DEFAULT_SECONDS)
    } else {
        None
    }
}

/// Resolves the auto-unlock timeout from an already parsed override and the
/// stored value.
pub fn resolve_auto_unlock_timeout_internal(env_value: Option<u64>, config_value: u64) -> (r: Option<u64>)
    ensures
        r == resolved_auto_unlock(env_value, config_value),
{
    match env_value {
        Some(v) => Some(v),
        None => if config_value != 0 {
            Some(config_value)
        } else if AUTO_UNLOCK_DEFAULT_SECONDS != 0 {
            Some(AUTO_UNLOCK_DEFAULT_SECONDS)
        } else {
            None
        },
    }
}

/// Resolves the auto-unlock timeout from the override text, if any, and the
/// stored value.
pub fn resolve_auto_unlock_timeout(env_text: Option<&str>, config_value: u64) -> (r: Option<u64>)
    ensures
        r == resolved_auto_unlock(
            timeout_override(env_text, AUTO_UNLOCK_MIN_SECONDS, AUTO_UNLOCK_MAX_SECONDS),
            config_value,
        ),
{
    resolve_auto_unlock_timeout_internal(parse_auto_unlock_timeout(env_text), config_value)
}

} // verus!
