//! Writing numbers as the digits of a CSS colour.

use vstd::prelude::*;
use vstd::string::*;

verus! {

/// The lower-case digit for a value below sixteen.
pub open spec fn digit_char(d: int) -> char {
    if d == 0 {
        '0'
    } else if d == 1 {
        '1'
    } else if d == 2 {
        '2'
    } else if d == 3 {
        '3'
    } else if d == 4 {
        '4'
    } else if d == 5 {
        '5'
    } else if d == 6 {
        '6'
    } else if d == 7 {
        '7'
    } else if d == 8 {
        '8'
    } else if d == 9 {
        '9'
    } else if d == 10 {
        'a'
    } else if d == 11 {
        'b'
    } else if d == 12 {
        'c'
    } else if d == 13 {
        'd'
    } else if d == 14 {
        'e'
    } else {
        'f'
    }
}

/// A value below 256 as two hexadecimal digits.
pub open spec fn hex_pair(n: int) -> Seq<char> {
    seq![digit_char(n / 16), digit_char(n % 16)]
}

/// A number in decimal, without leading zeros.
pub open spec fn decimal_of(n: nat) -> Seq<char>
    decreases n,
{
    if n < 10 {
        seq![digit_char(n as int)]
    } else {
        decimal_of(n / 10).push(digit_char((n % 10) as int))
    }
}

/// `#rrggbb` for three whole channels below 256.
pub open spec fn css_hex_of(r: int, g: int, b: int) -> Seq<char> {
    seq!['#'] + hex_pair(r) + hex_pair(g) + hex_pair(b)
}

/// `rgb(R,G,B)` for three whole channels.
pub open spec fn css_rgb_of(r: nat, g: nat, b: nat) -> Seq<char> {
    seq!['r', 'g', 'b', '('] + decimal_of(r) + seq![','] + decimal_of(g) + seq![','] + decimal_of(
        b,
    ) + seq![')']
}

/// `hsl(H,S%,L%)` for whole degrees and whole percentages.
pub open spec fn css_hsl_of(h: nat, s: nat, l: nat) -> Seq<char> {
    seq!['h', 's', 'l', '('] + decimal_of(h) + seq![','] + decimal_of(s) + seq!['%', ',']
        + decimal_of(l) + seq!['%', ')']
}

/// The digit for a value below sixteen, as text.
pub(crate) fn digit_str(d: u16) -> (out: &'static str)
    requires
        d < 16,
    ensures
        out@ == seq![digit_char(d as int)],
{
    proof {
        reveal_strlit("0");
        reveal_strlit("1");
        reveal_strlit("2");
        reveal_strlit("3");
        reveal_strlit("4");
        reveal_strlit("5");
        reveal_strlit("6");
        reveal_strlit("7");
        reveal_strlit("8");
        reveal_strlit("9");
        reveal_strlit("a");
        reveal_strlit("b");
        reveal_strlit("c");
        reveal_strlit("d");
        reveal_strlit("e");
        reveal_strlit("f");
    }
    let out: &'static str = if d == 0 {
        "0"
    } else if d == 1 {
        "1"
    } else if d == 2 {
        "2"
    } else if d == 3 {
        "3"
    } else if d == 4 {
        "4"
    } else if d == 5 {
        "5"
    } else if d == 6 {
        "6"
    } else if d == 7 {
        "7"
    } else if d == 8 {
        "8"
    } else if d == 9 {
        "9"
    } else if d == 10 {
        "a"
    } else if d == 11 {
        "b"
    } else if d == 12 {
        "c"
    } else if d == 13 {
        "d"
    } else if d == 14 {
        "e"
    } else {
        "f"
    };
    assert(out@ =~= seq![digit_char(d as int)]);
    out
}

/// Appends the two hexadecimal digits of `n`.
pub(crate) fn push_hex_pair(text: &mut String, n: u16)
    requires
        n < 256,
    ensures
        final(text)@ == old(text)@ + hex_pair(n as int),
{
    let ghost before = text@;
    text.append(digit_str(n / 16));
    text.append(digit_str(n % 16));
    assert(text@ =~= before + hex_pair(n as int));
}

/// The decimal digits of `n`.
pub fn decimal(n: u16) -> (out: String)
    ensures
        out@ == decimal_of(n as nat),
    decreases n,
{
    if n < 10 {
        String::from_str(digit_str(n))
    } else {
        let head: String = decimal(n / 10);
        let out: String = head.concat(digit_str(n % 10));
        assert(out@ =~= decimal_of((n / 10) as nat).push(digit_char((n % 10) as int)));
        out
    }
}

} // verus!
