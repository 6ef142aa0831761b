//! Verified text helpers: appending to a `String` (stated for std, which
//! vstd leaves unspecified) and rendering an unsigned number in decimal.

use vstd::prelude::*;

verus! {

/// Relies on std's String::push_str: appends the characters of `other`.
pub assume_specification[ String::push_str ](s: &mut String, other: &str)
    ensures
        final(s)@ == old(s)@ + other@,
;

/// Relies on std's String::push: appends the one character `ch`.
pub assume_specification[ String::push ](s: &mut String, ch: char)
    ensures
        final(s)@ == old(s)@.push(ch),
;

/// The character for one decimal digit.
pub open spec fn digit_char(d: nat) -> char {
    if d == 0 {
        '0'
    } else if d == 1 {
        '1'
    } else if d == 2 {
        '2'
    } else if d == 3 {
        '3'
    } else if d == 4 {
        '4'
    } else if d == 5 {
        '5'
    } else if d == 6 {
        '6'
    } else if d == 7 {
        '7'
    } else if d == 8 {
        '8'
    } else {
        '9'
    }
}

/// The decimal digits of `n`, most significant first.
pub open spec fn dec_digits(n: nat) -> Seq<char>
    decreases n,
{
    if n < 10 {
        seq![digit_char(n)]
    } else {
        dec_digits(n / 10).push(digit_char(n % 10))
    }
}

/// The six digits of a microsecond remainder, zero-padded.
pub open spec fn micros_digits(n: nat) -> Seq<char> {
    seq![
        digit_char((n / 100000) % 10),
        digit_char((n / 10000) % 10),
        digit_char((n / 1000) % 10),
        digit_char((n / 100) % 10),
        digit_char((n / 10) % 10),
        digit_char(n % 10),
    ]
}

/// A microsecond count since the unix epoch, rendered as seconds, a
/// point, and the six-digit microsecond remainder.
pub open spec fn timestamp_chars(micros: nat) -> Seq<char> {
    dec_digits(micros / 1000000) + seq!['.'] + micros_digits(micros % 1000000)
}

/// Renders a microsecond count as `timestamp_chars` states it.
pub fn format_timestamp(micros: u64) -> (r: String)
    ensures
        r@ == timestamp_chars(micros as nat),
{
    let mut s = u64_to_dec(micros / 1000000);
    s.push('.');
    let frac = micros % 1000000;
    s.push(digit_to_char((frac / 100000) % 10));
    s.push(digit_to_char((frac / 10000) % 10));
    s.push(digit_to_char((frac / 1000) % 10));
    s.push(digit_to_char((frac / 100) % 10));
    s.push(digit_to_char((frac / 10) % 10));
    s.push(digit_to_char(frac % 10));
    proof {
        assert(s@ =~= timestamp_chars(micros as nat));
    }
    s
}

/// `needle` occurs somewhere inside `haystack`.
pub open spec fn contains_seq(haystack: Seq<char>, needle: Seq<char>) -> bool {
    exists|i: int|
        0 <= i && i + needle.len() <= haystack.len() && #[trigger] haystack.subrange(
            i,
            i + needle.len(),
        ) == needle
}

/// Whatever stands in front of it, a concatenation carries its second
/// part verbatim.
pub proof fn lemma_concat_contains_suffix(prefix: Seq<char>, suffix: Seq<char>)
    ensures
        contains_seq(prefix + suffix, suffix),
{
    let i = prefix.len() as int;
    assert((prefix + suffix).subrange(i, i + suffix.len()) =~= suffix);
}

fn digit_to_char(d: u64) -> (r: char)
    requires
        d < 10,
    ensures
        r == digit_char(d as nat),
{
    if d == 0 {
        '0'
    } else if d == 1 {
        '1'
    } else if d == 2 {
        '2'
    } else if d == 3 {
        '3'
    } else if d == 4 {
        '4'
    } else if d == 5 {
        '5'
    } else if d == 6 {
        '6'
    } else if d == 7 {
        '7'
    } else if d == 8 {
        '8'
    } else {
        '9'
    }
}

/// `n` rendered in decimal, most significant digit first.
pub fn u64_to_dec(n: u64) -> (r: String)
    ensures
        r@ == dec_digits(n as nat),
    decreases n,
{
    if n < 10 {
        let mut s = String::new();
        s.push(digit_to_char(n));
        proof {
            assert(s@ =~= seq![digit_char(n as nat)]);
        }
        s
    } else {
        let mut s = u64_to_dec(n / 10);
        s.push(digit_to_char(n % 10));
        s
    }
}

} // verus!
