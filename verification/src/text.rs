//! Rendering of numbers as text, for the disassembly.

use vstd::prelude::*;

verus! {

/// The character for a digit below sixteen, letters in lower case.
pub open spec fn digit_char(digit: int) -> char {
    if digit == 0 {
        '0'
    } else if digit == 1 {
        '1'
    } else if digit == 2 {
        '2'
    } else if digit == 3 {
        '3'
    } else if digit == 4 {
        '4'
    } else if digit == 5 {
        '5'
    } else if digit == 6 {
        '6'
    } else if digit == 7 {
        '7'
    } else if digit == 8 {
        '8'
    } else if digit == 9 {
        '9'
    } else if digit == 10 {
        'a'
    } else if digit == 11 {
        'b'
    } else if digit == 12 {
        'c'
    } else if digit == 13 {
        'd'
    } else if digit == 14 {
        'e'
    } else {
        'f'
    }
}

/// `n` in decimal, without leading zeros.
pub open spec fn decimal(n: nat) -> Seq<char>
    decreases n,
{
    if n < 10 {
        seq![digit_char(n as int)]
    } else {
        decimal(n / 10).push(digit_char((n % 10) as int))
    }
}

/// `n` as `0x` and four hexadecimal digits.
pub open spec fn hex4(n: int) -> Seq<char> {
    seq![
        '0',
        'x',
        digit_char((n / 0x1000) % 0x10),
        digit_char((n / 0x100) % 0x10),
        digit_char((n / 0x10) % 0x10),
        digit_char(n % 0x10),
    ]
}

/// Calls `String::push`, which appends one character to the string.
#[verifier::external_body]
pub(crate) fn push_char(text: &mut String, c: char)
    ensures
        final(text)@ == old(text)@.push(c),
{
    text.push(c)
}

pub(crate) fn digit(value: u16) -> (c: char)
    requires
        value < 16,
    ensures
        c == digit_char(value as int),
{
    if value == 0 {
        '0'
    } else if value == 1 {
        '1'
    } else if value == 2 {
        '2'
    } else if value == 3 {
        '3'
    } else if value == 4 {
        '4'
    } else if value == 5 {
        '5'
    } else if value == 6 {
        '6'
    } else if value == 7 {
        '7'
    } else if value == 8 {
        '8'
    } else if value == 9 {
        '9'
    } else if value == 10 {
        'a'
    } else if value == 11 {
        'b'
    } else if value == 12 {
        'c'
    } else if value == 13 {
        'd'
    } else if value == 14 {
        'e'
    } else {
        'f'
    }
}

/// Appends `n` in decimal.
pub(crate) fn push_decimal(text: &mut String, n: u16)
    ensures
        final(text)@ == old(text)@ + decimal(n as nat),
    decreases n,
{
    if n >= 10 {
        push_decimal(text, n / 10);
    }
    push_char(text, digit(n % 10));
}

/// Appends `n` as `0x` and four hexadecimal digits.
pub(crate) fn push_hex4(text: &mut String, n: u16)
    ensures
        final(text)@ == old(text)@ + hex4(n as int),
{
    push_char(text, '0');
    push_char(text, 'x');
    push_char(text, digit((n / 0x1000) % 0x10));
    push_char(text, digit((n / 0x100) % 0x10));
    push_char(text, digit((n / 0x10) % 0x10));
    push_char(text, digit(n % 0x10));
}

} // verus!
