//! Decimal rendering of the integer counters that appear in output rows.

use crate::strutil::push_char;
use vstd::prelude::*;
use vstd::string::StringExecFns;

verus! {

/// The character for one decimal digit.
pub open spec fn digit_char(d: nat) -> char {
    if d == 0 {
        '0'
    } else if d == 1 {
        '1'
    } else if d == 2 {
        '2'
    } else if d == 3 {
        '3'
    } else if d == 4 {
        '4'
    } else if d == 5 {
        '5'
    } else if d == 6 {
        '6'
    } else if d == 7 {
        '7'
    } else if d == 8 {
        '8'
    } else {
        '9'
    }
}

/// The decimal digits of `n`, most significant first, with no sign and no
/// leading zero except for `n == 0` itself.
pub open spec fn dec_str(n: nat) -> Seq<char>
    decreases n,
{
    if n < 10 {
        seq![digit_char(n)]
    } else {
        dec_str(n / 10).push(digit_char(n % 10))
    }
}

/// The decimal rendering of a signed value: a leading `-` before the
/// magnitude for negative values.
pub open spec fn dec_str_signed(v: int) -> Seq<char> {
    if v < 0 {
        seq!['-'] + dec_str((-v) as nat)
    } else {
        dec_str(v as nat)
    }
}

fn digit_char_exec(d: u8) -> (c: char)
    requires
        d < 10,
    ensures
        c == digit_char(d as nat),
{
    match d {
        0 => '0',
        1 => '1',
        2 => '2',
        3 => '3',
        4 => '4',
        5 => '5',
        6 => '6',
        7 => '7',
        8 => '8',
        _ => '9',
    }
}

/// Render `n` in decimal, per `dec_str`.
pub fn u128_to_dec(n: u128) -> (s: String)
    ensures
        s@ == dec_str(n as nat),
    decreases n,
{
    if n < 10 {
        let mut s = String::new();
        push_char(&mut s, digit_char_exec(n as u8));
        proof {
            assert(s@ =~= dec_str(n as nat));
        }
        s
    } else {
        let mut s = u128_to_dec(n / 10);
        push_char(&mut s, digit_char_exec((n % 10) as u8));
        s
    }
}

/// Render `n` in decimal, per `dec_str`.
pub fn u64_to_dec(n: u64) -> (s: String)
    ensures
        s@ == dec_str(n as nat),
{
    u128_to_dec(n as u128)
}

/// Render `v` in decimal with its sign, per `dec_str_signed`.
pub fn i64_to_dec(v: i64) -> (s: String)
    ensures
        s@ == dec_str_signed(v as int),
{
    if v < 0 {
        let mag: u128 = (-(v as i128)) as u128;
        let mut s = String::new();
        push_char(&mut s, '-');
        let digits = u128_to_dec(mag);
        s.append(digits.as_str());
        proof {
            assert(s@ =~= dec_str_signed(v as int));
        }
        s
    } else {
        u128_to_dec(v as u128)
    }
}

} // verus!
