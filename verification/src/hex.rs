//! Bytes as text, for messages about what went over the line.

use vstd::prelude::*;

verus! {

/// The upper-case hexadecimal digit of a value below 16.
pub open spec fn hex_digit(nibble: int) -> char
    recommends
        0 <= nibble < 16,
{
    if nibble == 0 {
        '0'
    } else if nibble == 1 {
        '1'
    } else if nibble == 2 {
        '2'
    } else if nibble == 3 {
        '3'
    } else if nibble == 4 {
        '4'
    } else if nibble == 5 {
        '5'
    } else if nibble == 6 {
        '6'
    } else if nibble == 7 {
        '7'
    } else if nibble == 8 {
        '8'
    } else if nibble == 9 {
        '9'
    } else if nibble == 10 {
        'A'
    } else if nibble == 11 {
        'B'
    } else if nibble == 12 {
        'C'
    } else if nibble == 13 {
        'D'
    } else if nibble == 14 {
        'E'
    } else {
        'F'
    }
}

/// One byte as text: `0x` and two upper-case hexadecimal digits.
pub open spec fn hex_byte(byte: u8) -> Seq<char> {
    seq!['0', 'x', hex_digit(byte as int / 16), hex_digit(byte as int % 16)]
}

/// A byte sequence as text: its bytes as [`hex_byte`] writes them, with a
/// comma and a space between neighbours.
pub open spec fn hex_text(bytes: Seq<u8>) -> Seq<char>
    decreases bytes.len(),
{
    if bytes.len() == 0 {
        Seq::empty()
    } else if bytes.len() == 1 {
        hex_byte(bytes[0])
    } else {
        hex_text(bytes.drop_last()) + seq![',', ' '] + hex_byte(bytes.last())
    }
}

/// Calls `String::from_iter` on the characters of `chars`.
///
/// Trusted: the text holds exactly these characters, in this order.
#[verifier::external_body]
fn text_of_chars(chars: &[char]) -> (text: String)
    ensures
        text@ == chars@,
{
    String::from_iter(chars)
}

/// Chooses the upper-case hexadecimal digit of `nibble`.
fn digit_of(nibble: u8) -> (digit: char)
    requires
        nibble < 16,
    ensures
        digit == hex_digit(nibble as int),
{
    match nibble {
        0 => '0',
        1 => '1',
        2 => '2',
        3 => '3',
        4 => '4',
        5 => '5',
        6 => '6',
        7 => '7',
        8 => '8',
        9 => '9',
        10 => 'A',
        11 => 'B',
        12 => 'C',
        13 => 'D',
        14 => 'E',
        _ => 'F',
    }
}

/// Writes `bytes` as text, such as `0xB3, 0x00, 0x23`.
pub fn format_hex(bytes: &[u8]) -> (text: String)
    ensures
        text@ == hex_text(bytes@),
{
    let mut chars: Vec<char> = Vec::new();
    let mut index: usize = 0;
    while index < bytes.len()
        invariant
            index <= bytes@.len(),
            chars@ == hex_text(bytes@.take(index as int)),
        decreases bytes@.len() - index,
    {
        if index > 0 {
            chars.push(',');
            chars.push(' ');
        }
        let byte = bytes[index];
        chars.push('0');
        chars.push('x');
        chars.push(digit_of(byte / 16));
        chars.push(digit_of(byte % 16));
        proof {
            assert(bytes@.take(index + 1).drop_last() =~= bytes@.take(index as int));
        }
        index += 1;
    }
    proof {
        assert(bytes@.take(index as int) =~= bytes@);
    }
    text_of_chars(chars.as_slice())
}

} // verus!
