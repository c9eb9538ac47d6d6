//! Numbers as text: the digits that the textual forms of a module are
//! made of.

use vstd::prelude::*;
use vstd::string::*;

verus! {

/// The character for the digit `d`, upper case from ten on.
pub open spec fn digit_char(d: int) -> char {
    if d == 0 {
        '0'
    } else if d == 1 {
        '1'
    } else if d == 2 {
        '2'
    } else if d == 3 {
        '3'
    } else if d == 4 {
        '4'
    } else if d == 5 {
        '5'
    } else if d == 6 {
        '6'
    } else if d == 7 {
        '7'
    } else if d == 8 {
        '8'
    } else if d == 9 {
        '9'
    } else if d == 10 {
        'A'
    } else if d == 11 {
        'B'
    } else if d == 12 {
        'C'
    } else if d == 13 {
        'D'
    } else if d == 14 {
        'E'
    } else {
        'F'
    }
}

/// `v` in hexadecimal, two digits.
pub open spec fn hex2(v: u8) -> Seq<char> {
    seq![digit_char(v as int / 16), digit_char(v as int % 16)]
}

/// `v` in hexadecimal, as few digits as it takes.
pub open spec fn hex1(v: u8) -> Seq<char> {
    if v < 16 {
        seq![digit_char(v as int)]
    } else {
        hex2(v)
    }
}

/// `v` in decimal, as few digits as it takes.
pub open spec fn decimal(v: u8) -> Seq<char> {
    if v < 10 {
        seq![digit_char(v as int)]
    } else if v < 100 {
        seq![digit_char(v as int / 10), digit_char(v as int % 10)]
    } else {
        seq![digit_char(v as int / 100), digit_char(v as int / 10 % 10), digit_char(v as int % 10)]
    }
}

/// `v` in decimal, two digits at least.
pub open spec fn decimal2(v: u8) -> Seq<char> {
    if v < 10 {
        seq!['0', digit_char(v as int)]
    } else {
        decimal(v)
    }
}

/// The digit `d` as a string.
pub fn digit_str(d: u8) -> (r: &'static str)
    requires
        d < 16,
    ensures
        r@ == seq![digit_char(d as int)],
{
    proof {
        reveal_strlit("0");
        reveal_strlit("1");
        reveal_strlit("2");
        reveal_strlit("3");
        reveal_strlit("4");
        reveal_strlit("5");
        reveal_strlit("6");
        reveal_strlit("7");
        reveal_strlit("8");
        reveal_strlit("9");
        reveal_strlit("A");
        reveal_strlit("B");
        reveal_strlit("C");
        reveal_strlit("D");
        reveal_strlit("E");
        reveal_strlit("F");
    }
    match d {
        0 => "0",
        1 => "1",
        2 => "2",
        3 => "3",
        4 => "4",
        5 => "5",
        6 => "6",
        7 => "7",
        8 => "8",
        9 => "9",
        10 => "A",
        11 => "B",
        12 => "C",
        13 => "D",
        14 => "E",
        _ => "F",
    }
}

/// Appends `v` in hexadecimal, two digits.
pub fn push_hex2(out: &mut String, v: u8)
    ensures
        final(out)@ == old(out)@ + hex2(v),
{
    out.append(digit_str(v / 16));
    out.append(digit_str(v % 16));
}

/// Appends `v` in hexadecimal, as few digits as it takes.
pub fn push_hex1(out: &mut String, v: u8)
    ensures
        final(out)@ == old(out)@ + hex1(v),
{
    if v < 16 {
        out.append(digit_str(v));
    } else {
        push_hex2(out, v);
    }
}

/// Appends `v` in decimal, as few digits as it takes.
pub fn push_decimal(out: &mut String, v: u8)
    ensures
        final(out)@ == old(out)@ + decimal(v),
{
    if v >= 100 {
        out.append(digit_str(v / 100));
    }
    if v >= 10 {
        out.append(digit_str(v / 10 % 10));
    }
    out.append(digit_str(v % 10));
}

/// Appends `v` in decimal, two digits at least.
pub fn push_decimal2(out: &mut String, v: u8)
    ensures
        final(out)@ == old(out)@ + decimal2(v),
{
    if v < 10 {
        out.append(digit_str(0));
    }
    push_decimal(out, v);
}

} // verus!
