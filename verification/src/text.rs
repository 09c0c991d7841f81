//! Rendering of byte and address values as upper-case hexadecimal text, used
//! for the assembly strings in instruction snapshots.

use vstd::prelude::*;
use vstd::string::StringExecFns;

verus! {

/// The upper-case hexadecimal digit for a value below 16.
pub open spec fn spec_hex_digit(value: u8) -> char {
    if value == 0 {
        '0'
    } else if value == 1 {
        '1'
    } else if value == 2 {
        '2'
    } else if value == 3 {
        '3'
    } else if value == 4 {
        '4'
    } else if value == 5 {
        '5'
    } else if value == 6 {
        '6'
    } else if value == 7 {
        '7'
    } else if value == 8 {
        '8'
    } else if value == 9 {
        '9'
    } else if value == 10 {
        'A'
    } else if value == 11 {
        'B'
    } else if value == 12 {
        'C'
    } else if value == 13 {
        'D'
    } else if value == 14 {
        'E'
    } else {
        'F'
    }
}

/// The two hexadecimal digits of a byte, most significant first.
pub open spec fn spec_hex2(value: u8) -> Seq<char> {
    seq![spec_hex_digit(value / 16), spec_hex_digit(value % 16)]
}

/// The four hexadecimal digits of a 16-bit value, most significant first.
pub open spec fn spec_hex4(value: u16) -> Seq<char> {
    seq![
        spec_hex_digit((value / 4096) as u8),
        spec_hex_digit(((value / 256) % 16) as u8),
        spec_hex_digit(((value / 16) % 16) as u8),
        spec_hex_digit((value % 16) as u8),
    ]
}

/// The upper-case hexadecimal digit for a value below 16, as text.
fn hex_digit_str(value: u8) -> (digit: &'static str)
    requires
        value < 16,
    ensures
        digit@ == seq![spec_hex_digit(value)],
{
    let digit: &'static str = match value {
        0 => "0",
        1 => "1",
        2 => "2",
        3 => "3",
        4 => "4",
        5 => "5",
        6 => "6",
        7 => "7",
        8 => "8",
        9 => "9",
        10 => "A",
        11 => "B",
        12 => "C",
        13 => "D",
        14 => "E",
        _ => "F",
    };
    proof {
        reveal_strlit("0");
        reveal_strlit("1");
        reveal_strlit("2");
        reveal_strlit("3");
        reveal_strlit("4");
        reveal_strlit("5");
        reveal_strlit("6");
        reveal_strlit("7");
        reveal_strlit("8");
        reveal_strlit("9");
        reveal_strlit("A");
        reveal_strlit("B");
        reveal_strlit("C");
        reveal_strlit("D");
        reveal_strlit("E");
        reveal_strlit("F");
        assert(digit@ =~= seq![spec_hex_digit(value)]);
    }
    digit
}

/// Append the two hexadecimal digits of a byte to a string.
pub fn append_hex2(text: &mut String, value: u8)
    ensures
        final(text)@ == old(text)@ + spec_hex2(value),
{
    text.append(hex_digit_str(value / 16));
    text.append(hex_digit_str(value % 16));
    assert(text@ =~= old(text)@ + spec_hex2(value));
}

/// Append the four hexadecimal digits of a 16-bit value to a string.
pub fn append_hex4(text: &mut String, value: u16)
    ensures
        final(text)@ == old(text)@ + spec_hex4(value),
{
    text.append(hex_digit_str((value / 4096) as u8));
    text.append(hex_digit_str(((value / 256) % 16) as u8));
    text.append(hex_digit_str(((value / 16) % 16) as u8));
    text.append(hex_digit_str((value % 16) as u8));
    assert(text@ =~= old(text)@ + spec_hex4(value));
}

} // verus!
