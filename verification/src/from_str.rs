//! Reading a hexadecimal colour literal.

use crate::consts::UNIT;
use crate::error::ParseError;
use crate::render::{css_hex_of, digit_char};
use vstd::prelude::*;
use vstd::string::*;

verus! {

/// The value of a hexadecimal digit of either case.
pub open spec fn hex_value(c: char) -> Option<int> {
    let v = c as int;
    if 48 <= v <= 57 {
        Some(v - 48)
    } else if 97 <= v <= 102 {
        Some(v - 87)
    } else if 65 <= v <= 70 {
        Some(v - 55)
    } else {
        None
    }
}

/// The literal without its leading `#`, if it has one.
pub open spec fn hex_body(s: Seq<char>) -> Seq<char> {
    if s.len() > 0 && s[0] == '#' {
        s.skip(1)
    } else {
        s
    }
}

pub open spec fn all_hex(s: Seq<char>) -> bool {
    forall|i: int| 0 <= i < s.len() ==> (#[trigger] hex_value(s[i])) is Some
}

pub open spec fn digit_at(s: Seq<char>, i: int) -> int {
    hex_value(s[i]).unwrap()
}

/// The channels that a literal names, in millionths. Three digits stand for
/// six, each one doubled.
pub open spec fn parse_hex(s: Seq<char>) -> Result<(int, int, int), ParseError> {
    let b = hex_body(s);
    if b.len() != 3 && b.len() != 6 {
        Err(ParseError::Length)
    } else if !all_hex(b) {
        Err(ParseError::Digit)
    } else if b.len() == 3 {
        Ok((17 * digit_at(b, 0) * UNIT, 17 * digit_at(b, 1) * UNIT, 17 * digit_at(b, 2) * UNIT))
    } else {
        Ok(
            (
                (16 * digit_at(b, 0) + digit_at(b, 1)) * UNIT,
                (16 * digit_at(b, 2) + digit_at(b, 3)) * UNIT,
                (16 * digit_at(b, 4) + digit_at(b, 5)) * UNIT,
            ),
        )
    }
}

fn hex_digit_value(c: char) -> (out: Option<i64>)
    ensures
        match out {
            Some(v) => hex_value(c) == Some(v as int) && 0 <= v < 16,
            None => hex_value(c) is None,
        },
{
    let v: u32 = c as u32;
    if 48 <= v && v <= 57 {
        Some((v - 48) as i64)
    } else if 97 <= v && v <= 102 {
        Some((v - 87) as i64)
    } else if 65 <= v && v <= 70 {
        Some((v - 55) as i64)
    } else {
        None
    }
}

/// Reads `rgb`, `rrggbb`, `#rgb` or `#rrggbb`, digits of either case.
pub fn hex(s: &str) -> (out: Result<(i64, i64, i64), ParseError>)
    ensures
        match out {
            Ok(t) => parse_hex(s@) == Ok::<(int, int, int), ParseError>(
                (t.0 as int, t.1 as int, t.2 as int),
            ),
            Err(e) => parse_hex(s@) == Err::<(int, int, int), ParseError>(e),
        },
{
    let n: usize = s.unicode_len();
    let start: usize = if n > 0 && s.get_char(0) == '#' {
        1
    } else {
        0
    };
    let len: usize = n - start;
    if len != 3 && len != 6 {
        return Err(ParseError::Length);
    }
    let ghost body = hex_body(s@);
    let mut digits: Vec<i64> = Vec::new();
    let mut i: usize = 0;
    while i < len
        invariant
            i <= len,
            len == 3 || len == 6,
            len == n - start,
            n == s@.len(),
            start <= 1,
            body == hex_body(s@),
            body.len() == len,
            forall|j: int| 0 <= j < len ==> body[j] == s@[start + j],
            digits@.len() == i,
            forall|j: int|
                0 <= j < i ==> hex_value(#[trigger] body[j]) == Some(digits@[j] as int) && 0
                    <= digits@[j] < 16,
        decreases len - i,
    {
        let c: char = s.get_char(start + i);
        match hex_digit_value(c) {
            Some(v) => {
                digits.push(v);
            },
            None => {
                assert(hex_value(body[i as int]) is None);
                return Err(ParseError::Digit);
            },
        }
        i = i + 1;
    }
    assert(all_hex(body));
    if len == 3 {
        Ok((17 * digits[0] * UNIT, 17 * digits[1] * UNIT, 17 * digits[2] * UNIT))
    } else {
        Ok(
            (
                (16 * digits[0] + digits[1]) * UNIT,
                (16 * digits[2] + digits[3]) * UNIT,
                (16 * digits[4] + digits[5]) * UNIT,
            ),
        )
    }
}

/// Every digit that is written reads back as its value.
pub proof fn lemma_digit_reads_back(d: int)
    requires
        0 <= d < 16,
    ensures
        hex_value(digit_char(d)) == Some(d),
{
}

/// What is written as `#rrggbb` reads back as the same three whole channels.
pub proof fn lemma_hex_reads_back(r: int, g: int, b: int)
    requires
        0 <= r < 256,
        0 <= g < 256,
        0 <= b < 256,
    ensures
        parse_hex(css_hex_of(r, g, b)) == Ok::<(int, int, int), ParseError>(
            (r * UNIT, g * UNIT, b * UNIT),
        ),
{
    let text = css_hex_of(r, g, b);
    let body = hex_body(text);
    assert(text.len() == 7);
    assert(text[0] == '#');
    assert(body.len() == 6);
    assert(body[0] == digit_char(r / 16));
    assert(body[1] == digit_char(r % 16));
    assert(body[2] == digit_char(g / 16));
    assert(body[3] == digit_char(g % 16));
    assert(body[4] == digit_char(b / 16));
    assert(body[5] == digit_char(b % 16));
    lemma_digit_reads_back(r / 16);
    lemma_digit_reads_back(r % 16);
    lemma_digit_reads_back(g / 16);
    lemma_digit_reads_back(g % 16);
    lemma_digit_reads_back(b / 16);
    lemma_digit_reads_back(b % 16);
    assert(all_hex(body)) by {
        assert forall|i: int| 0 <= i < body.len() implies (#[trigger] hex_value(body[i])) is Some by {
            if i == 0 {
            } else if i == 1 {
            } else if i == 2 {
            } else if i == 3 {
            } else if i == 4 {
            } else {
                assert(i == 5);
            }
        }
    }
}

} // verus!
