//! Numbers as text, for the detail that an error carries.

use vstd::prelude::*;
use vstd::string::StringExecFns;

verus! {

/// The character of a decimal digit.
pub open spec fn digit_char(d: int) -> char {
    if d == 0 {
        '0'
    } else if d == 1 {
        '1'
    } else if d == 2 {
        '2'
    } else if d == 3 {
        '3'
    } else if d == 4 {
        '4'
    } else if d == 5 {
        '5'
    } else if d == 6 {
        '6'
    } else if d == 7 {
        '7'
    } else if d == 8 {
        '8'
    } else {
        '9'
    }
}

/// The decimal digits of `n`, without leading zeros.
pub open spec fn decimal_text(n: nat) -> Seq<char>
    decreases n,
{
    if n < 10 {
        seq![digit_char(n as int)]
    } else {
        decimal_text(n / 10) + seq![digit_char((n % 10) as int)]
    }
}

/// The binary digits of `n`, without leading zeros.
pub open spec fn binary_text(n: nat) -> Seq<char>
    decreases n,
{
    if n < 2 {
        seq![digit_char(n as int)]
    } else {
        binary_text(n / 2) + seq![digit_char((n % 2) as int)]
    }
}

/// The eight bits of `b` behind `0b`, leading zeros included.
pub open spec fn byte_bits_text(b: u8) -> Seq<char> {
    "0b"@ + seq![
        digit_char((b / 128) as int),
        digit_char((b / 64 % 2) as int),
        digit_char((b / 32 % 2) as int),
        digit_char((b / 16 % 2) as int),
        digit_char((b / 8 % 2) as int),
        digit_char((b / 4 % 2) as int),
        digit_char((b / 2 % 2) as int),
        digit_char((b % 2) as int),
    ]
}

/// The bits of `x` behind `0b`, without leading zeros.
pub open spec fn word_bits_text(x: u16) -> Seq<char> {
    "0b"@ + binary_text(x as nat)
}

/// The text of one decimal digit.
pub fn digit_str(d: u8) -> (s: &'static str)
    requires
        d < 10,
    ensures
        s@ == seq![digit_char(d as int)],
{
    proof {
        reveal_strlit("0");
        reveal_strlit("1");
        reveal_strlit("2");
        reveal_strlit("3");
        reveal_strlit("4");
        reveal_strlit("5");
        reveal_strlit("6");
        reveal_strlit("7");
        reveal_strlit("8");
        reveal_strlit("9");
    }
    let s = if d == 0 {
        "0"
    } else if d == 1 {
        "1"
    } else if d == 2 {
        "2"
    } else if d == 3 {
        "3"
    } else if d == 4 {
        "4"
    } else if d == 5 {
        "5"
    } else if d == 6 {
        "6"
    } else if d == 7 {
        "7"
    } else if d == 8 {
        "8"
    } else {
        "9"
    };
    assert(s@ =~= seq![digit_char(d as int)]);
    s
}

/// `n` in decimal.
pub fn decimal(n: usize) -> (s: String)
    ensures
        s@ == decimal_text(n as nat),
    decreases n,
{
    if n < 10 {
        String::from_str(digit_str(n as u8))
    } else {
        let mut s = decimal(n / 10);
        s.append(digit_str((n % 10) as u8));
        s
    }
}

/// `n` in binary.
pub fn binary(n: u16) -> (s: String)
    ensures
        s@ == binary_text(n as nat),
    decreases n,
{
    if n < 2 {
        String::from_str(digit_str(n as u8))
    } else {
        let mut s = binary(n / 2);
        s.append(digit_str((n % 2) as u8));
        s
    }
}

/// `b` in binary behind `0b`, with all its eight bits.
pub fn byte_bits(b: u8) -> (s: String)
    ensures
        s@ == byte_bits_text(b),
{
    let mut s = String::from_str("0b");
    s.append(digit_str(b / 128));
    s.append(digit_str(b / 64 % 2));
    s.append(digit_str(b / 32 % 2));
    s.append(digit_str(b / 16 % 2));
    s.append(digit_str(b / 8 % 2));
    s.append(digit_str(b / 4 % 2));
    s.append(digit_str(b / 2 % 2));
    s.append(digit_str(b % 2));
    assert(s@ =~= byte_bits_text(b));
    s
}

/// `x` in binary behind `0b`.
pub fn word_bits(x: u16) -> (s: String)
    ensures
        s@ == word_bits_text(x),
{
    let mut s = String::from_str("0b");
    s.append(binary(x).as_str());
    s
}

} // verus!
