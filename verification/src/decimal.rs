//! Decimal formatting of unsigned integers, for the progress notice.

use vstd::prelude::*;

verus! {

/// The character for the digit `v`.
pub open spec fn spec_digit_char(v: int) -> char {
    if v == 0 {
        '0'
    } else if v == 1 {
        '1'
    } else if v == 2 {
        '2'
    } else if v == 3 {
        '3'
    } else if v == 4 {
        '4'
    } else if v == 5 {
        '5'
    } else if v == 6 {
        '6'
    } else if v == 7 {
        '7'
    } else if v == 8 {
        '8'
    } else {
        '9'
    }
}

/// The usual decimal writing of `n`: no sign, no leading zero except for
/// zero itself.
pub open spec fn spec_decimal(n: nat) -> Seq<char>
    decreases n,
{
    if n < 10 {
        seq![spec_digit_char(n as int)]
    } else {
        spec_decimal(n / 10).push(spec_digit_char((n % 10) as int))
    }
}

/// The character for the digit `v`.
pub fn digit_char(v: u8) -> (c: char)
    requires
        v <= 9,
    ensures
        c == spec_digit_char(v as int),
{
    match v {
        0 => '0',
        1 => '1',
        2 => '2',
        3 => '3',
        4 => '4',
        5 => '5',
        6 => '6',
        7 => '7',
        8 => '8',
        _ => '9',
    }
}

/// Writes `n` in decimal.
pub fn u64_to_decimal(n: u64) -> (r: String)
    ensures
        r@ == spec_decimal(n as nat),
{
    let mut digits: Vec<char> = Vec::new();
    let mut m: u64 = n;
    proof {
        assert(spec_decimal(n as nat) + digits@ =~= spec_decimal(n as nat));
    }
    while m >= 10
        invariant
            spec_decimal(n as nat) == spec_decimal(m as nat) + digits@,
        decreases m,
    {
        let c = digit_char((m % 10) as u8);
        proof {
            assert(spec_decimal(m as nat) == spec_decimal((m as nat) / 10).push(
                spec_digit_char((m % 10) as int),
            ));
            assert(spec_decimal((m as nat) / 10).push(spec_digit_char((m % 10) as int)) + digits@
                =~= spec_decimal((m as nat) / 10) + digits@.insert(
                0,
                spec_digit_char((m % 10) as int),
            ));
        }
        digits.insert(0, c);
        m = m / 10;
    }
    proof {
        assert(spec_decimal(m as nat) + digits@ =~= digits@.insert(
            0,
            spec_digit_char(m as int),
        ));
    }
    let c = digit_char(m as u8);
    digits.insert(0, c);
    let mut r = String::new();
    let mut i: usize = 0;
    proof {
        assert(digits@.subrange(0, 0) =~= Seq::<char>::empty());
    }
    while i < digits.len()
        invariant
            i <= digits@.len(),
            digits@ == spec_decimal(n as nat),
            r@ == digits@.subrange(0, i as int),
        decreases digits@.len() - i,
    {
        r.push(digits[i]);
        proof {
            assert(digits@.subrange(0, i as int).push(digits@[i as int]) =~= digits@.subrange(
                0,
                i as int + 1,
            ));
        }
        i = i + 1;
    }
    proof {
        assert(digits@.subrange(0, digits@.len() as int) =~= digits@);
    }
    r
}

} // verus!
