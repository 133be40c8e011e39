//! Unsigned numbers as they are written in disassembly: decimal, `0x`
//! hexadecimal and `0b` binary literals, immediates (`$` and a literal), and
//! the bare hexadecimal of addresses and byte columns.

use vstd::prelude::*;

use crate::error::ParseError;
use crate::text::chars_of;

verus! {

/// The value of `c` as a digit: `0` to `9`, then `a` to `z` (or `A` to `Z`)
/// for ten to thirty-five.
pub open spec fn digit(c: char) -> Option<nat> {
    if '0' <= c <= '9' {
        Some((c as u32 - '0' as u32) as nat)
    } else if 'a' <= c <= 'z' {
        Some((c as u32 - 'a' as u32 + 10) as nat)
    } else if 'A' <= c <= 'Z' {
        Some((c as u32 - 'A' as u32 + 10) as nat)
    } else {
        None
    }
}

/// The number that the digits `s` spell in the given radix, most significant
/// digit first; `None` if a character is no digit of that radix. No digits
/// spell zero.
pub open spec fn digits(s: Seq<char>, radix: nat) -> Option<nat>
    decreases s.len(),
{
    if s.len() == 0 {
        Some(0)
    } else {
        match (digits(s.drop_last(), radix), digit(s.last())) {
            (Some(high), Some(low)) if low < radix => Some(high * radix + low),
            _ => None,
        }
    }
}

/// The number that `s` spells in the given radix, if `s` is one digit or more
/// and the number is at most `max`.
pub open spec fn number(s: Seq<char>, radix: nat, max: u64) -> Option<u64> {
    match digits(s, radix) {
        Some(v) if s.len() > 0 && v <= max => Some(v as u64),
        _ => None,
    }
}

/// The number that `s` spells when a leading `+` is allowed before the
/// digits, as Rust's own integer parsing allows it.
pub open spec fn plus_number(s: Seq<char>, radix: nat, max: u64) -> Option<u64> {
    if s.len() > 0 && s[0] == '+' {
        number(s.skip(1), radix, max)
    } else {
        number(s, radix, max)
    }
}

/// The value of an integer literal: hexadecimal after `0x`, binary after
/// `0b`, decimal otherwise. A sign, an empty digit string, a character that
/// is no digit of the radix, or a value beyond 64 bits leaves no value.
pub open spec fn literal(s: Seq<char>) -> Option<u64> {
    if s.len() >= 2 && s[0] == '0' && s[1] == 'x' {
        number(s.skip(2), 16, u64::MAX)
    } else if s.len() >= 2 && s[0] == '0' && s[1] == 'b' {
        number(s.skip(2), 2, u64::MAX)
    } else {
        number(s, 10, u64::MAX)
    }
}

/// The value of an immediate: a `$` and an integer literal.
pub open spec fn immediate(s: Seq<char>) -> Option<u64> {
    if s.len() > 0 && s[0] == '$' {
        literal(s.skip(1))
    } else {
        None
    }
}

/// The 64-bit pattern of the negative of `v`.
pub open spec fn negated(v: u64) -> u64 {
    if v == 0 {
        0
    } else {
        (0x1_0000_0000_0000_0000 - v) as u64
    }
}

/// The value of a displacement: an integer literal, or `-` and an integer
/// literal, which stands for the 64-bit two's complement of its value.
pub open spec fn displacement(s: Seq<char>) -> Option<u64> {
    if s.len() > 0 && s[0] == '-' {
        match literal(s.skip(1)) {
            Some(v) => Some(negated(v)),
            None => None,
        }
    } else {
        literal(s)
    }
}

/// Digits that spell a number still do so when digits are taken off the end,
/// and then spell no more than before.
pub proof fn lemma_digits_prefix(s: Seq<char>, radix: nat, k: int)
    requires
        0 <= k <= s.len(),
        digits(s, radix) is Some,
    ensures
        digits(s.take(k), radix) is Some,
        digits(s.take(k), radix).unwrap() <= digits(s, radix).unwrap(),
    decreases s.len() - k,
{
    if k == s.len() {
        assert(s.take(k) == s);
    } else {
        let t = s.drop_last();
        assert(t.take(k) == s.take(k));
        lemma_digits_prefix(t, radix, k);
        let high = digits(t, radix).unwrap();
        assert(high <= high * radix + digit(s.last()).unwrap()) by (nonlinear_arith)
            requires
                radix > digit(s.last()).unwrap(),
        ;
    }
}

/// The least number that `len` digits of the radix cannot spell.
pub open spec fn limit(radix: nat, len: nat) -> nat
    decreases len,
{
    if len == 0 {
        1
    } else {
        radix * limit(radix, (len - 1) as nat)
    }
}

/// Whether `c` is a digit of the radix.
pub open spec fn is_digit(c: char, radix: nat) -> bool {
    digit(c) matches Some(v) && v < radix
}

/// Digits of the radix always spell a number, and one below the limit of
/// their count.
pub proof fn lemma_digits_spell(s: Seq<char>, radix: nat)
    requires
        forall|i: int| 0 <= i < s.len() ==> is_digit(#[trigger] s[i], radix),
    ensures
        digits(s, radix) is Some,
        digits(s, radix).unwrap() < limit(radix, s.len()),
    decreases s.len(),
{
    if s.len() > 0 {
        let t = s.drop_last();
        assert forall|i: int| 0 <= i < t.len() implies is_digit(#[trigger] t[i], radix) by {
            assert(t[i] == s[i]);
        }
        lemma_digits_spell(t, radix);
        assert(is_digit(s[s.len() - 1], radix));
        let high = digits(t, radix).unwrap();
        let low = digit(s.last()).unwrap();
        let bound = limit(radix, t.len());
        assert(high * radix + low < radix * bound) by (nonlinear_arith)
            requires
                high < bound,
                low < radix,
        ;
    }
}

/// One to sixteen hexadecimal digits spell a 64-bit number.
pub proof fn lemma_hex_fits(s: Seq<char>)
    requires
        1 <= s.len() <= 16,
        forall|i: int| 0 <= i < s.len() ==> is_digit(#[trigger] s[i], 16),
    ensures
        digits(s, 16) is Some,
        plus_number(s, 16, u64::MAX) == Some(digits(s, 16).unwrap() as u64),
{
    lemma_digits_spell(s, 16);
    assert(is_digit(s[0], 16));
    assert(limit(16, s.len()) <= 0x1_0000_0000_0000_0000) by {
        reveal_with_fuel(limit, 17);
    }
}

/// Executable form of [`digit`].
pub fn digit_of(c: char) -> (d: Option<u32>)
    ensures
        match d {
            Some(v) => digit(c) == Some(v as nat),
            None => digit(c) is None,
        },
{
    if c >= '0' && c <= '9' {
        Some(c as u32 - '0' as u32)
    } else if c >= 'a' && c <= 'z' {
        Some(c as u32 - 'a' as u32 + 10)
    } else if c >= 'A' && c <= 'Z' {
        Some(c as u32 - 'A' as u32 + 10)
    } else {
        None
    }
}

/// Reads the characters of `chars` from index `from` on as a number in the
/// given radix.
fn read_number(chars: &Vec<char>, from: usize, radix: u32, max: u64) -> (value: Option<u64>)
    requires
        from <= chars@.len(),
        2 <= radix <= 36,
    ensures
        value == number(chars@.skip(from as int), radix as nat, max),
{
    let ghost s = chars@.skip(from as int);
    if from == chars.len() {
        return None;
    }
    let mut value: u64 = 0;
    let mut i: usize = from;
    while i < chars.len()
        invariant
            from <= i <= chars@.len(),
            s == chars@.skip(from as int),
            2 <= radix <= 36,
            digits(s.take(i - from), radix as nat) == Some(value as nat),
            value <= max,
        decreases chars@.len() - i,
    {
        let ghost upto = s.take(i - from + 1);
        proof {
            assert(upto.drop_last() == s.take(i - from));
            assert(upto.last() == chars@[i as int]);
        }
        let low = match digit_of(chars[i]) {
            Some(low) if low < radix => low,
            _ => {
                proof {
                    if digits(s, radix as nat) is Some {
                        lemma_digits_prefix(s, radix as nat, i - from + 1);
                    }
                }
                return None;
            },
        };
        let next = match value.checked_mul(radix as u64) {
            Some(high) => high.checked_add(low as u64),
            None => None,
        };
        match next {
            Some(next) if next <= max => {
                value = next;
            },
            _ => {
                proof {
                    if digits(s, radix as nat) is Some {
                        lemma_digits_prefix(s, radix as nat, i - from + 1);
                    }
                }
                return None;
            },
        }
        i += 1;
    }
    proof {
        assert(s.take(i - from) == s);
    }
    Some(value)
}

/// Parses the bare hexadecimal number of an address or byte column:
/// hexadecimal digits without `0x`, with one `+` allowed in front, and a value
/// of at most `max`.
pub fn parse_hex(token: &str, max: u64) -> (value: Option<u64>)
    ensures
        value == plus_number(token@, 16, max),
{
    let chars = chars_of(token);
    if chars.len() > 0 && chars[0] == '+' {
        read_number(&chars, 1, 16, max)
    } else {
        proof {
            assert(chars@.skip(0) == chars@);
        }
        read_number(&chars, 0, 16, max)
    }
}

/// Reads the characters of `chars` from index `from` on as an integer
/// literal.
fn read_literal(chars: &Vec<char>, from: usize) -> (value: Option<u64>)
    requires
        from <= chars@.len(),
    ensures
        value == literal(chars@.skip(from as int)),
{
    let ghost s = chars@.skip(from as int);
    proof {
        assert(s.skip(0) == s);
        if s.len() >= 2 {
            assert(s.skip(2) == chars@.skip(from + 2));
        }
    }
    if chars.len() - from >= 2 && chars[from] == '0' && chars[from + 1] == 'x' {
        read_number(chars, from + 2, 16, u64::MAX)
    } else if chars.len() - from >= 2 && chars[from] == '0' && chars[from + 1] == 'b' {
        read_number(chars, from + 2, 2, u64::MAX)
    } else {
        read_number(chars, from, 10, u64::MAX)
    }
}

/// Parses an integer literal: decimal, hexadecimal after `0x`, or binary
/// after `0b`.
pub fn parse_integer(token: &str) -> (value: Result<u64, ParseError>)
    ensures
        value == literal(token@).ok_or(ParseError::MalformedInteger),
{
    let chars = chars_of(token);
    proof {
        assert(chars@.skip(0) == chars@);
    }
    read_literal(&chars, 0).ok_or(ParseError::MalformedInteger)
}

/// Parses an immediate: a `$` and an integer literal.
pub fn parse_immediate(token: &str) -> (value: Result<u64, ParseError>)
    ensures
        value == immediate(token@).ok_or(ParseError::MalformedInteger),
{
    let chars = chars_of(token);
    if chars.len() > 0 && chars[0] == '$' {
        read_literal(&chars, 1).ok_or(ParseError::MalformedInteger)
    } else {
        Err(ParseError::MalformedInteger)
    }
}

/// Parses a displacement: an integer literal with an optional `-` in front.
/// A negative displacement is returned as its 64-bit two's complement.
pub fn parse_displacement(token: &str) -> (value: Result<u64, ParseError>)
    ensures
        value == displacement(token@).ok_or(ParseError::MalformedInteger),
{
    let chars = chars_of(token);
    if chars.len() > 0 && chars[0] == '-' {
        let v = read_literal(&chars, 1).ok_or(ParseError::MalformedInteger)?;
        Ok(if v == 0 { 0 } else { u64::MAX - v + 1 })
    } else {
        proof {
            assert(chars@.skip(0) == chars@);
        }
        read_literal(&chars, 0).ok_or(ParseError::MalformedInteger)
    }
}

} // verus!
