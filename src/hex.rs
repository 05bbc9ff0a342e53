//! Reading hexadecimal numbers as the editor accepts them: surrounding white
//! space is ignored, then one optional `0x` or `0X` prefix, then at least one
//! hexadecimal digit of either case and nothing else.

use vstd::prelude::*;
use crate::text::{ascii_non_space, trim_of, trim_text};

verus! {

/// The value of a hexadecimal digit of either case.
pub open spec fn hex_digit(c: char) -> Option<nat> {
    if '0' <= c && c <= '9' {
        Some(((c as u32) - ('0' as u32)) as nat)
    } else if 'a' <= c && c <= 'f' {
        Some(((c as u32) - ('a' as u32) + 10) as nat)
    } else if 'A' <= c && c <= 'F' {
        Some(((c as u32) - ('A' as u32) + 10) as nat)
    } else {
        None
    }
}

/// The value of a sequence of hexadecimal digits; zero for the empty sequence.
pub open spec fn hex_digits_value(s: Seq<char>) -> Option<nat>
    decreases s.len(),
{
    if s.len() == 0 {
        Some(0)
    } else {
        match (hex_digits_value(s.drop_last()), hex_digit(s.last())) {
            (Some(v), Some(d)) => Some(v * 16 + d),
            _ => None,
        }
    }
}

/// The value of an unsigned number in base sixteen: at least one digit.
pub open spec fn radix16_value(s: Seq<char>) -> Option<nat> {
    if s.len() == 0 {
        None
    } else {
        hex_digits_value(s)
    }
}

/// Whether `s` starts with `0x` or `0X`.
pub open spec fn has_hex_prefix(s: Seq<char>) -> bool {
    s.len() >= 2 && s[0] == '0' && (s[1] == 'x' || s[1] == 'X')
}

/// The digits part of a hexadecimal input: the trimmed text without its
/// prefix, if it has one.
pub open spec fn hex_body(s: Seq<char>) -> Seq<char> {
    let t = trim_of(s);
    if has_hex_prefix(t) {
        t.subrange(2, t.len() as int)
    } else {
        t
    }
}

/// The number that a hexadecimal input denotes, when it is below `bound`.
pub open spec fn parsed_hex(s: Seq<char>, bound: nat) -> Option<nat> {
    match radix16_value(hex_body(s)) {
        Some(v) => if v < bound {
            Some(v)
        } else {
            None
        },
        None => None,
    }
}

pub open spec fn min_nat(a: nat, b: nat) -> nat {
    if a < b {
        a
    } else {
        b
    }
}

proof fn lemma_capped_step(v: nat, d: nat, bound: nat)
    requires
        d < 16,
    ensures
        min_nat(v * 16 + d, bound) == min_nat(min_nat(v, bound) * 16 + d, bound),
{
    if v >= bound {
        assert(v * 16 + d >= bound) by (nonlinear_arith)
            requires
                v >= bound,
        ;
        assert(bound * 16 + d >= bound) by (nonlinear_arith);
    }
}

fn chars_of(s: &str) -> (r: Vec<char>)
    ensures
        r@ == s@,
{
    let n = s.unicode_len();
    let mut out: Vec<char> = Vec::new();
    for i in 0..n
        invariant
            n == s@.len(),
            out@ == s@.take(i as int),
    {
        out.push(s.get_char(i));
        assert(s@.take(i + 1) =~= s@.take(i as int).push(s@[i as int]));
    }
    assert(s@.take(n as int) =~= s@);
    out
}

fn hex_digit_exec(c: char) -> (r: Option<u128>)
    ensures
        match r {
            Some(v) => hex_digit(c) == Some(v as nat) && v < 16,
            None => hex_digit(c) is None,
        },
{
    if '0' <= c && c <= '9' {
        Some(((c as u32) - ('0' as u32)) as u128)
    } else if 'a' <= c && c <= 'f' {
        Some(((c as u32) - ('a' as u32) + 10) as u128)
    } else if 'A' <= c && c <= 'F' {
        Some(((c as u32) - ('A' as u32) + 10) as u128)
    } else {
        None
    }
}

/// The value of the digits of `s` from `from` on, when it is below `bound`.
fn digits_below(s: &Vec<char>, from: usize, bound: u128) -> (r: Option<u128>)
    requires
        from <= s@.len(),
        bound <= 0x1_0000_0000_0000_0000,
    ensures
        match r {
            Some(v) => hex_digits_value(s@.subrange(from as int, s@.len() as int)) == Some(v as nat)
                && v < bound,
            None => match hex_digits_value(s@.subrange(from as int, s@.len() as int)) {
                Some(v) => v >= bound,
                None => true,
            },
        },
{
    let n = s.len();
    let mut acc: u128 = 0;
    let mut k: usize = from;
    assert(s@.subrange(from as int, from as int) =~= Seq::<char>::empty());
    while k < n
        invariant
            from <= k <= n,
            n == s@.len(),
            bound <= 0x1_0000_0000_0000_0000,
            acc <= bound,
            hex_digits_value(s@.subrange(from as int, k as int)) is Some,
            acc as nat == min_nat(hex_digits_value(s@.subrange(from as int, k as int))->0, bound as nat),
        decreases n - k,
    {
        let ghost prefix = s@.subrange(from as int, k as int);
        let ghost next = s@.subrange(from as int, k + 1);
        assert(next.drop_last() =~= prefix);
        assert(next.last() == s@[k as int]);
        match hex_digit_exec(s[k]) {
            None => {
                proof {
                    lemma_invalid_suffix(s@, from as int, k as int);
                }
                return None;
            },
            Some(d) => {
                proof {
                    lemma_capped_step(hex_digits_value(prefix)->0, d as nat, bound as nat);
                }
                let grown = acc * 16 + d;
                acc = if grown < bound {
                    grown
                } else {
                    bound
                };
            },
        }
        k = k + 1;
    }
    assert(s@.subrange(from as int, n as int) == s@.subrange(from as int, k as int));
    if acc < bound {
        Some(acc)
    } else {
        None
    }
}

proof fn lemma_invalid_suffix(s: Seq<char>, from: int, k: int)
    requires
        0 <= from <= k < s.len(),
        hex_digit(s[k]) is None,
    ensures
        hex_digits_value(s.subrange(from, s.len() as int)) is None,
    decreases s.len() - k,
{
    lemma_invalid_anywhere(s.subrange(from, s.len() as int), k - from);
}

proof fn lemma_invalid_anywhere(t: Seq<char>, k: int)
    requires
        0 <= k < t.len(),
        hex_digit(t[k]) is None,
    ensures
        hex_digits_value(t) is None,
    decreases t.len(),
{
    if k < t.len() - 1 {
        lemma_invalid_anywhere(t.drop_last(), k);
    }
}

/// The number that a hexadecimal input denotes, if it is below `bound`.
fn parse_hex_below(text: &str, bound: u128) -> (r: Option<u128>)
    requires
        bound <= 0x1_0000_0000_0000_0000,
    ensures
        match r {
            Some(v) => parsed_hex(text@, bound as nat) == Some(v as nat),
            None => parsed_hex(text@, bound as nat) is None,
        },
        text@.len() > 0 && ascii_non_space(text@[0]) && ascii_non_space(text@.last()) ==> trim_of(text@)
            == text@,
{
    let trimmed = trim_text(text);
    let s = chars_of(trimmed.as_str());
    let n = s.len();
    assert(s@.subrange(0, n as int) =~= s@);
    let start: usize = if n >= 2 && s[0] == '0' && (s[1] == 'x' || s[1] == 'X') {
        2
    } else {
        0
    };
    assert(s@.subrange(start as int, n as int) == hex_body(text@));
    if start == n {
        return None;
    }
    digits_below(&s, start, bound)
}

/// Reads a 32-bit hexadecimal address.
pub fn parse_hex_u32(text: &str) -> (r: Option<u32>)
    ensures
        match r {
            Some(v) => parsed_hex(text@, 0x1_0000_0000) == Some(v as nat),
            None => parsed_hex(text@, 0x1_0000_0000) is None,
        },
        text@.len() > 0 && ascii_non_space(text@[0]) && ascii_non_space(text@.last()) ==> trim_of(text@)
            == text@,
{
    match parse_hex_below(text, 0x1_0000_0000) {
        Some(v) => Some(v as u32),
        None => None,
    }
}

/// Reads a 64-bit hexadecimal mask.
pub fn parse_hex_u64(text: &str) -> (r: Option<u64>)
    ensures
        match r {
            Some(v) => parsed_hex(text@, 0x1_0000_0000_0000_0000) == Some(v as nat),
            None => parsed_hex(text@, 0x1_0000_0000_0000_0000) is None,
        },
        text@.len() > 0 && ascii_non_space(text@[0]) && ascii_non_space(text@.last()) ==> trim_of(text@)
            == text@,
{
    match parse_hex_below(text, 0x1_0000_0000_0000_0000) {
        Some(v) => Some(v as u64),
        None => None,
    }
}

} // verus!
