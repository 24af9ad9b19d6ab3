//! The text of the uptime label.

use vstd::prelude::*;

verus! {

/// The character of the decimal digit `d`.
pub open spec fn digit(d: int) -> char {
    if d == 0 {
        '0'
    } else if d == 1 {
        '1'
    } else if d == 2 {
        '2'
    } else if d == 3 {
        '3'
    } else if d == 4 {
        '4'
    } else if d == 5 {
        '5'
    } else if d == 6 {
        '6'
    } else if d == 7 {
        '7'
    } else if d == 8 {
        '8'
    } else {
        '9'
    }
}

/// The decimal digits of `n`, the most significant first, without leading
/// zeros.
pub open spec fn decimal(n: nat) -> Seq<char>
    decreases n,
{
    if n < 10 {
        seq![digit(n as int)]
    } else {
        decimal(n / 10).push(digit((n % 10) as int))
    }
}

/// The label for an uptime of so many seconds: the word `Uptime`, a space,
/// the seconds in decimal, and the letter `s`.
pub open spec fn label_text(seconds: u32) -> Seq<char> {
    seq!['U', 'p', 't', 'i', 'm', 'e', ' '] + decimal(seconds as nat) + seq!['s']
}

/// The character of the decimal digit `d`.
fn digit_char(d: u32) -> (c: char)
    requires
        d < 10,
    ensures
        c == digit(d as int),
{
    match d {
        0 => '0',
        1 => '1',
        2 => '2',
        3 => '3',
        4 => '4',
        5 => '5',
        6 => '6',
        7 => '7',
        8 => '8',
        _ => '9',
    }
}

/// Appends the decimal digits of `n` to `out`.
fn push_decimal(out: &mut Vec<char>, n: u32)
    ensures
        final(out)@ == old(out)@ + decimal(n as nat),
    decreases n,
{
    if n >= 10 {
        push_decimal(out, n / 10);
    }
    out.push(digit_char(n % 10));
}

/// The characters of the label for an uptime of so many seconds.
pub fn uptime_label(seconds: u32) -> (label: Vec<char>)
    ensures
        label@ == label_text(seconds),
{
    let mut label: Vec<char> = vec!['U', 'p', 't', 'i', 'm', 'e', ' '];
    push_decimal(&mut label, seconds);
    label.push('s');
    label
}

} // verus!
