//! Decimal text for the numeric codes that error messages carry.

use vstd::prelude::*;

verus! {

/// `String::push_str` appends the given text.
pub assume_specification[ String::push_str ](s: &mut String, string: &str)
    ensures
        final(s)@ == old(s)@ + string@,
;

/// `String::push` appends the given character.
pub assume_specification[ String::push ](s: &mut String, ch: char)
    ensures
        final(s)@ == old(s)@.push(ch),
;

/// The character of a decimal digit.
pub open spec fn digit(d: int) -> char
    recommends
        0 <= d < 10,
{
    if d == 0 {
        '0'
    } else if d == 1 {
        '1'
    } else if d == 2 {
        '2'
    } else if d == 3 {
        '3'
    } else if d == 4 {
        '4'
    } else if d == 5 {
        '5'
    } else if d == 6 {
        '6'
    } else if d == 7 {
        '7'
    } else if d == 8 {
        '8'
    } else {
        '9'
    }
}

/// The decimal digits of a natural number, without leading zeros.
pub open spec fn decimal_nat(n: nat) -> Seq<char>
    decreases n,
{
    if n < 10 {
        seq![digit(n as int)]
    } else {
        decimal_nat(n / 10).push(digit((n % 10) as int))
    }
}

/// The decimal text of an integer: a minus sign where it is negative, then
/// the digits of its magnitude.
pub open spec fn decimal(n: int) -> Seq<char> {
    if n < 0 {
        seq!['-'] + decimal_nat((-n) as nat)
    } else {
        decimal_nat(n as nat)
    }
}

/// The character of a decimal digit.
fn digit_char(d: u8) -> (c: char)
    requires
        d < 10,
    ensures
        c == digit(d as int),
{
    if d == 0 {
        '0'
    } else if d == 1 {
        '1'
    } else if d == 2 {
        '2'
    } else if d == 3 {
        '3'
    } else if d == 4 {
        '4'
    } else if d == 5 {
        '5'
    } else if d == 6 {
        '6'
    } else if d == 7 {
        '7'
    } else if d == 8 {
        '8'
    } else {
        '9'
    }
}

/// Appends the decimal text of a code.
pub fn push_code(s: &mut String, code: i8)
    ensures
        final(s)@ == old(s)@ + decimal(code as int),
{
    let ghost before = s@;
    let magnitude: u8 = if code < 0 {
        s.push('-');
        (-(code as i16)) as u8
    } else {
        code as u8
    };
    let ghost signed = s@;
    let ghost m = magnitude as nat;
    if magnitude >= 100 {
        s.push(digit_char(magnitude / 100));
        s.push(digit_char(magnitude / 10 % 10));
        s.push(digit_char(magnitude % 10));
        proof {
            assert(decimal_nat(m / 10 / 10) =~= seq![digit((m / 100) as int)]);
            assert(decimal_nat(m / 10) =~= decimal_nat(m / 10 / 10).push(
                digit((m / 10 % 10) as int),
            ));
            assert(s@ =~= signed + decimal_nat(m));
        }
    } else if magnitude >= 10 {
        s.push(digit_char(magnitude / 10));
        s.push(digit_char(magnitude % 10));
        proof {
            assert(decimal_nat(m / 10) =~= seq![digit((m / 10) as int)]);
            assert(s@ =~= signed + decimal_nat(m));
        }
    } else {
        s.push(digit_char(magnitude));
        proof {
            assert(s@ =~= signed + decimal_nat(m));
        }
    }
    proof {
        assert(s@ =~= before + decimal(code as int));
    }
}

} // verus!
