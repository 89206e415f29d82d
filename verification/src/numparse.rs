//! Parsing of unsigned decimal numbers with the rules of the standard
//! library's `FromStr` for unsigned integers: an optional leading `+`, then
//! one or more ASCII digits, and a value that fits the target type.
use vstd::prelude::*;
use crate::text::{char_is_digit, digit_value, is_digit};

verus! {

/// Whether every character of `s` is an ASCII digit.
pub open spec fn all_digits(s: Seq<char>) -> bool {
    forall|i: int| 0 <= i < s.len() ==> is_digit(#[trigger] s[i])
}

/// The value of a sequence of decimal digits (most significant first).
pub open spec fn digits_value(s: Seq<char>) -> nat
    decreases s.len(),
{
    if s.len() == 0 {
        0
    } else {
        digits_value(s.drop_last()) * 10 + digit_value(s.last())
    }
}

/// The digit part of an unsigned literal: the text without a leading `+`.
pub open spec fn unsigned_body(s: Seq<char>) -> Seq<char> {
    if s.len() > 0 && s[0] == '+' {
        s.drop_first()
    } else {
        s
    }
}

/// The value of `s` read as an unsigned decimal not above `max`, if it is one.
pub open spec fn parse_unsigned(s: Seq<char>, max: nat) -> Option<nat> {
    let d = unsigned_body(s);
    if d.len() > 0 && all_digits(d) && digits_value(d) <= max {
        Some(digits_value(d))
    } else {
        None
    }
}

proof fn lemma_digit_step(v: nat, d: nat, max: nat)
    ensures
        v > max ==> v * 10 + d > max,
{
    assert(v > max ==> v * 10 + d > max) by (nonlinear_arith);
}

/// Reads `s` as an unsigned decimal that must not exceed `max`.
pub fn parse_unsigned_chars(s: &[char], max: u32) -> (r: Option<u32>)
    ensures
        match r {
            Some(v) => parse_unsigned(s@, max as nat) == Some(v as nat),
            None => parse_unsigned(s@, max as nat) is None,
        },
{
    let start: usize = if s.len() > 0 && s[0] == '+' { 1 } else { 0 };
    let ghost body = unsigned_body(s@);
    assert(body == s@.subrange(start as int, s.len() as int));
    if start >= s.len() {
        return None;
    }
    let mut acc: u64 = 0;
    let limit: u64 = max as u64 + 1;
    let mut i = start;
    while i < s.len()
        invariant
            start <= i <= s.len(),
            limit == max + 1,
            body == unsigned_body(s@),
            body == s@.subrange(start as int, s.len() as int),
            all_digits(s@.subrange(start as int, i as int)),
            acc == (if digits_value(s@.subrange(start as int, i as int)) <= max {
                digits_value(s@.subrange(start as int, i as int))
            } else {
                limit as nat
            }),
        decreases s.len() - i,
    {
        let c = s[i];
        if !char_is_digit(c) {
            assert(body[i - start] == c);
            assert(!is_digit(body[i - start]));
            assert(!all_digits(body));
            assert(parse_unsigned(s@, max as nat) is None);
            return None;
        }
        let d: u64 = ((c as u32) - 48) as u64;
        let ghost prefix = s@.subrange(start as int, i as int);
        let ghost next = s@.subrange(start as int, i + 1);
        assert(next.drop_last() =~= prefix);
        assert(next.last() == c);
        proof {
            lemma_digit_step(digits_value(prefix), d as nat, max as nat);
        }
        let cand = acc * 10 + d;
        acc = if cand > max as u64 { limit } else { cand };
        i = i + 1;
        assert(all_digits(next)) by {
            assert forall|j: int| 0 <= j < next.len() implies is_digit(#[trigger] next[j]) by {
                if j < prefix.len() {
                    assert(next[j] == prefix[j]);
                }
            }
        }
    }
    assert(s@.subrange(start as int, s.len() as int) == body);
    if acc > max as u64 {
        None
    } else {
        Some(acc as u32)
    }
}

/// Reads `s` as a `u32` the way `str::parse::<u32>` does.
pub fn parse_u32(s: &[char]) -> (r: Option<u32>)
    ensures
        match r {
            Some(v) => parse_unsigned(s@, u32::MAX as nat) == Some(v as nat),
            None => parse_unsigned(s@, u32::MAX as nat) is None,
        },
{
    parse_unsigned_chars(s, u32::MAX)
}

/// Reads `s` as a `u16` the way `str::parse::<u16>` does.
pub fn parse_u16(s: &[char]) -> (r: Option<u16>)
    ensures
        match r {
            Some(v) => parse_unsigned(s@, u16::MAX as nat) == Some(v as nat),
            None => parse_unsigned(s@, u16::MAX as nat) is None,
        },
{
    match parse_unsigned_chars(s, u16::MAX as u32) {
        Some(v) => Some(v as u16),
        None => None,
    }
}

} // verus!
