//! String building: concatenation and decimal rendering, used to assemble
//! the failure messages that name a cause.

use vstd::prelude::*;

verus! {

/// Relies on `String::push_str` of std: appends a string slice onto the end
/// of the string.
pub assume_specification[ String::push_str ](s: &mut String, other: &str)
    ensures
        final(s)@ == old(s)@ + other@,
;

/// Relies on `String::push` of std: appends the given char to the end of
/// the string.
pub assume_specification[ String::push ](s: &mut String, ch: char)
    ensures
        final(s)@ == old(s)@.push(ch),
;

/// Concatenates two string slices.
pub fn concat_strs(prefix: &str, suffix: &str) -> (r: String)
    ensures
        r@ == prefix@ + suffix@,
{
    let mut s = prefix.to_owned();
    s.push_str(suffix);
    s
}

/// The decimal digit character of a value below ten.
pub open spec fn decimal_digit(d: nat) -> char {
    if d == 0 {
        '0'
    } else if d == 1 {
        '1'
    } else if d == 2 {
        '2'
    } else if d == 3 {
        '3'
    } else if d == 4 {
        '4'
    } else if d == 5 {
        '5'
    } else if d == 6 {
        '6'
    } else if d == 7 {
        '7'
    } else if d == 8 {
        '8'
    } else {
        '9'
    }
}

/// The decimal rendering of a number, most significant digit first, without
/// leading zeros (a single `0` for zero).
pub open spec fn decimal_seq(n: nat) -> Seq<char>
    decreases n,
{
    if n < 10 {
        seq![decimal_digit(n)]
    } else {
        decimal_seq(n / 10).push(decimal_digit(n % 10))
    }
}

/// The decimal digit character of a value below ten.
pub fn digit_char(d: u16) -> (c: char)
    requires
        d < 10,
    ensures
        c == decimal_digit(d as nat),
{
    match d {
        0 => '0',
        1 => '1',
        2 => '2',
        3 => '3',
        4 => '4',
        5 => '5',
        6 => '6',
        7 => '7',
        8 => '8',
        _ => '9',
    }
}

/// Appends the decimal rendering of `n`.
pub fn push_decimal(s: &mut String, n: u16)
    ensures
        final(s)@ == old(s)@ + decimal_seq(n as nat),
    decreases n,
{
    if n < 10 {
        s.push(digit_char(n));
        proof {
            assert(old(s)@ + decimal_seq(n as nat) =~= old(s)@.push(decimal_digit(n as nat)));
        }
    } else {
        push_decimal(s, n / 10);
        s.push(digit_char(n % 10));
        proof {
            assert(old(s)@ + decimal_seq(n as nat) =~= (old(s)@ + decimal_seq((n / 10) as nat)).push(
                decimal_digit((n % 10) as nat),
            ));
        }
    }
}

} // verus!
