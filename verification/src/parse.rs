//! Reading numbers and booleans from text.

use crate::text::to_chars;
use crate::tool_core::str_eq;
use vstd::prelude::*;

verus! {

/// The value of a decimal digit.
pub open spec fn digit_value(c: char) -> Option<nat> {
    let u = c as u32;
    if 0x30 <= u <= 0x39 {
        Some((u - 0x30) as nat)
    } else {
        None
    }
}

/// The number that the decimal digits `s` denote; `None` when `s` is empty
/// or holds anything but digits.
pub open spec fn digits_value(s: Seq<char>) -> Option<nat>
    decreases s.len(),
{
    if s.len() == 0 {
        None
    } else if s.len() == 1 {
        digit_value(s[0])
    } else {
        match (digits_value(s.drop_last()), digit_value(s.last())) {
            (Some(a), Some(d)) => Some(a * 10 + d),
            _ => None,
        }
    }
}

/// The number that `s` denotes: decimal digits, with an optional `+` in
/// front.
pub open spec fn parse_nat(s: Seq<char>) -> Option<nat> {
    if s.len() > 0 && s[0] == '+' {
        digits_value(s.skip(1))
    } else {
        digits_value(s)
    }
}

/// The number that `s` denotes, if it is at most `max`.
pub open spec fn parse_bounded(s: Seq<char>, max: nat) -> Option<nat> {
    match parse_nat(s) {
        Some(v) => if v <= max {
            Some(v)
        } else {
            None
        },
        None => None,
    }
}

/// The boolean that `s` denotes: `true` or `false`.
pub open spec fn parse_bool_text(s: Seq<char>) -> Option<bool> {
    if s == "true"@ {
        Some(true)
    } else if s == "false"@ {
        Some(false)
    } else {
        None
    }
}

/// A number only grows as digits are appended.
proof fn lemma_digits_grow(s: Seq<char>, i: int)
    requires
        0 < i <= s.len(),
        digits_value(s.take(i)) is Some,
    ensures
        digits_value(s) matches Some(v) ==> v >= digits_value(s.take(i))->0,
    decreases s.len() - i,
{
    if i == s.len() {
        assert(s.take(i) == s);
    } else {
        assert(s.take(i + 1).drop_last() == s.take(i));
        if digits_value(s.take(i + 1)) is Some {
            lemma_digits_grow(s, i + 1);
        } else {
            lemma_digits_fail(s, i + 1);
        }
    }
}

/// Once a prefix is no number, the whole text is none.
proof fn lemma_digits_fail(s: Seq<char>, i: int)
    requires
        0 < i <= s.len(),
        digits_value(s.take(i)) is None,
    ensures
        digits_value(s) is None,
    decreases s.len() - i,
{
    if i == s.len() {
        assert(s.take(i) == s);
    } else {
        assert(s.take(i + 1).drop_last() == s.take(i));
        lemma_digits_fail(s, i + 1);
    }
}

fn digit_of_char(c: char) -> (r: Option<u64>)
    ensures
        match r {
            Some(d) => digit_value(c) == Some(d as nat) && d <= 9,
            None => digit_value(c) is None,
        },
{
    let u: u32 = c as u32;
    if 0x30 <= u && u <= 0x39 {
        Some((u - 0x30) as u64)
    } else {
        None
    }
}

fn parse_digits(s: &[char], from: usize) -> (r: Option<u64>)
    requires
        from <= s.len(),
    ensures
        match r {
            Some(v) => parse_bounded_digits(s@.skip(from as int), u64::MAX as nat) == Some(v as nat),
            None => parse_bounded_digits(s@.skip(from as int), u64::MAX as nat) is None,
        },
{
    let ghost t = s@.skip(from as int);
    if from == s.len() {
        return None;
    }
    let mut acc: u64 = 0;
    let mut i: usize = from;
    while i < s.len()
        invariant
            from <= i <= s.len(),
            t == s@.skip(from as int),
            i > from ==> digits_value(t.take(i - from)) == Some(acc as nat),
            i == from ==> acc == 0,
        decreases s.len() - i,
    {
        let ghost k = i - from;
        proof {
            assert(t.take(k + 1).drop_last() == t.take(k));
            assert(t.take(k + 1).last() == s@[i as int]);
            assert(t.take(k + 1)[0] == s@[from as int]);
        }
        match digit_of_char(s[i]) {
            None => {
                proof {
                    if k == 0 {
                        assert(t.take(1).len() == 1);
                    }
                    assert(digits_value(t.take(k + 1)) is None);
                    lemma_digits_fail(t, k + 1);
                }
                return None;
            },
            Some(d) => {
                if acc > (u64::MAX - d) / 10 {
                    proof {
                        assert(acc * 10 + d > u64::MAX);
                        assert(digits_value(t.take(k + 1)) == Some((acc * 10 + d) as nat));
                        lemma_digits_grow(t, k + 1);
                    }
                    return None;
                }
                proof {
                    if k == 0 {
                        assert(t.take(1).len() == 1);
                        assert(digits_value(t.take(1)) == Some(d as nat));
                    }
                }
                acc = acc * 10 + d;
            },
        }
        i += 1;
    }
    assert(t.take(s.len() - from) == t);
    Some(acc)
}

/// The number that the digits `s` denote, if it is at most `max`.
pub open spec fn parse_bounded_digits(s: Seq<char>, max: nat) -> Option<nat> {
    match digits_value(s) {
        Some(v) => if v <= max {
            Some(v)
        } else {
            None
        },
        None => None,
    }
}

/// Reads a `u64` from decimal text.
pub fn parse_u64(text: &str) -> (r: Option<u64>)
    ensures
        match r {
            Some(v) => parse_bounded(text@, u64::MAX as nat) == Some(v as nat),
            None => parse_bounded(text@, u64::MAX as nat) is None,
        },
{
    let s = to_chars(text);
    if s.len() > 0 && s[0] == '+' {
        parse_digits(s.as_slice(), 1)
    } else {
        assert(s@.skip(0) == s@);
        parse_digits(s.as_slice(), 0)
    }
}

/// Reads a `usize` from decimal text.
pub fn parse_usize(text: &str) -> (r: Option<usize>)
    ensures
        match r {
            Some(v) => parse_bounded(text@, usize::MAX as nat) == Some(v as nat),
            None => parse_bounded(text@, usize::MAX as nat) is None,
        },
{
    match parse_u64(text) {
        Some(v) => if v <= usize::MAX as u64 {
            Some(v as usize)
        } else {
            None
        },
        None => None,
    }
}

/// Reads a boolean from the text `true` or `false`.
pub fn parse_bool(text: &str) -> (r: Option<bool>)
    ensures
        r == parse_bool_text(text@),
{
    if str_eq(text, "true") {
        Some(true)
    } else if str_eq(text, "false") {
        Some(false)
    } else {
        None
    }
}

} // verus!
