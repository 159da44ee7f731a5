//! Decimal numbers as text.
//!
//! Writing an integer is verified here. Reading one is left to `str::parse`,
//! so that a failure is the standard library's own `ParseIntError`.

use std::num::ParseIntError;
use vstd::prelude::*;

verus! {

/// The character of a decimal digit.
pub open spec fn digit(d: int) -> char {
    if d == 0 {
        '0'
    } else if d == 1 {
        '1'
    } else if d == 2 {
        '2'
    } else if d == 3 {
        '3'
    } else if d == 4 {
        '4'
    } else if d == 5 {
        '5'
    } else if d == 6 {
        '6'
    } else if d == 7 {
        '7'
    } else if d == 8 {
        '8'
    } else {
        '9'
    }
}

/// The decimal digits of a natural number, without leading zeros.
pub open spec fn decimal_nat(n: nat) -> Seq<char>
    decreases n,
{
    if n < 10 {
        seq![digit(n as int)]
    } else {
        decimal_nat(n / 10).push(digit((n % 10) as int))
    }
}

/// The decimal text of an integer: a minus sign for a negative number, then
/// the digits.
pub open spec fn decimal(n: int) -> Seq<char> {
    if n < 0 {
        seq!['-'] + decimal_nat((-n) as nat)
    } else {
        decimal_nat(n as nat)
    }
}

fn digit_text(d: u32) -> (r: &'static str)
    requires
        d < 10,
    ensures
        r@ == seq![digit(d as int)],
{
    proof {
        reveal_strlit("0");
        reveal_strlit("1");
        reveal_strlit("2");
        reveal_strlit("3");
        reveal_strlit("4");
        reveal_strlit("5");
        reveal_strlit("6");
        reveal_strlit("7");
        reveal_strlit("8");
        reveal_strlit("9");
    }
    let r = if d == 0 {
        "0"
    } else if d == 1 {
        "1"
    } else if d == 2 {
        "2"
    } else if d == 3 {
        "3"
    } else if d == 4 {
        "4"
    } else if d == 5 {
        "5"
    } else if d == 6 {
        "6"
    } else if d == 7 {
        "7"
    } else if d == 8 {
        "8"
    } else {
        "9"
    };
    assert(r@ =~= seq![digit(d as int)]);
    r
}

fn append_decimal(out: &mut String, n: u32)
    ensures
        final(out)@ == old(out)@ + decimal_nat(n as nat),
    decreases n,
{
    if n >= 10 {
        append_decimal(out, n / 10);
    }
    out.append(digit_text(n % 10));
    assert(final(out)@ =~= old(out)@ + decimal_nat(n as nat));
}

/// Appends the decimal text of `n` to `out`.
pub fn append_i32(out: &mut String, n: i32)
    ensures
        final(out)@ == old(out)@ + decimal(n as int),
{
    if n < 0 {
        proof {
            reveal_strlit("-");
        }
        out.append("-");
        let magnitude: i64 = -(n as i64);
        append_decimal(out, magnitude as u32);
        assert(final(out)@ =~= old(out)@ + decimal(n as int));
    } else {
        append_decimal(out, n as u32);
    }
}

/// Whether a character is one of `0` to `9`.
pub open spec fn is_digit(c: char) -> bool {
    '0' <= c <= '9'
}

/// The number that a sequence of decimal digits writes.
pub open spec fn digits_value(digits: Seq<char>) -> int
    decreases digits.len(),
{
    if digits.len() == 0 {
        0
    } else {
        digits_value(digits.drop_last()) * 10 + (digits.last() as int - '0' as int)
    }
}

/// The number that one or more decimal digits write; `None` for the empty
/// text and for text with any other character.
pub open spec fn digits_number(text: Seq<char>) -> Option<int> {
    if text.len() > 0 && forall|i: int| 0 <= i < text.len() ==> is_digit(#[trigger] text[i]) {
        Some(digits_value(text))
    } else {
        None
    }
}

/// The integer that a text writes: an optional `+` or `-`, then one or more
/// decimal digits and nothing else.
pub open spec fn integer(text: Seq<char>) -> Option<int> {
    if text.len() > 0 && text[0] == '-' {
        match digits_number(text.skip(1)) {
            Some(v) => Some(-v),
            None => None,
        }
    } else if text.len() > 0 && text[0] == '+' {
        digits_number(text.skip(1))
    } else {
        digits_number(text)
    }
}

/// The `i32` that a text writes; `None` for what is no integer and for an
/// integer outside the range of `i32`.
pub open spec fn spec_parse_i32(text: Seq<char>) -> Option<i32> {
    match integer(text) {
        Some(v) => if i32::MIN <= v <= i32::MAX {
            Some(v as i32)
        } else {
            None
        },
        None => None,
    }
}

/// The digits that write a natural number are digits, and write that number.
pub proof fn lemma_decimal_nat_reads_back(n: nat)
    ensures
        digits_number(decimal_nat(n)) == Some(n as int),
        is_digit(decimal_nat(n)[0]),
    decreases n,
{
    if n < 10 {
        assert(decimal_nat(n).drop_last() =~= Seq::<char>::empty());
        assert(digits_value(decimal_nat(n).drop_last()) == 0);
    } else {
        lemma_decimal_nat_reads_back(n / 10);
        let front = decimal_nat(n / 10);
        let all = decimal_nat(n);
        assert(all.drop_last() =~= front);
        assert(all[0] == front[0]);
        assert forall|i: int| 0 <= i < all.len() implies is_digit(#[trigger] all[i]) by {
            if i < front.len() {
                assert(all[i] == front[i]);
            }
        }
    }
}

/// What is written for an `i32` reads back as the same `i32`.
pub proof fn lemma_decimal_reads_back(n: i32)
    ensures
        spec_parse_i32(decimal(n as int)) == Some(n),
{
    if n < 0 {
        let digits = decimal_nat((-n) as nat);
        lemma_decimal_nat_reads_back((-n) as nat);
        assert(decimal(n as int).skip(1) =~= digits);
    } else {
        lemma_decimal_nat_reads_back(n as nat);
    }
}

#[verifier::external_type_specification]
#[verifier::external_body]
pub struct ExParseIntError(std::num::ParseIntError);

/// Calls `str::parse::<i32>`. The standard library accepts an optional sign
/// followed by decimal digits only, and refuses the empty text, a sign alone,
/// any other character and a value that does not fit in `i32`: the result is
/// `Ok` exactly where [`spec_parse_i32`] has a value, and holds that value.
#[verifier::external_body]
pub(crate) fn parse_i32(text: &str) -> (r: Result<i32, ParseIntError>)
    ensures
        match r {
            Ok(v) => spec_parse_i32(text@) == Some(v),
            Err(_) => spec_parse_i32(text@) is None,
        },
{
    text.parse::<i32>()
}

} // verus!
