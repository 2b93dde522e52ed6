use vstd::prelude::*;

use crate::handover::Mapper;

verus! {

/// The character for one decimal digit value.
pub open spec fn decimal_digit(d: int) -> char {
    if d == 0 {
        '0'
    } else if d == 1 {
        '1'
    } else if d == 2 {
        '2'
    } else if d == 3 {
        '3'
    } else if d == 4 {
        '4'
    } else if d == 5 {
        '5'
    } else if d == 6 {
        '6'
    } else if d == 7 {
        '7'
    } else if d == 8 {
        '8'
    } else {
        '9'
    }
}

/// The decimal digits of a non-negative integer, most significant first,
/// with no leading zeros (a single `'0'` for zero).
pub open spec fn decimal_nat(n: nat) -> Seq<char>
    decreases n,
{
    if n < 10 {
        seq![decimal_digit(n as int)]
    } else {
        decimal_nat(n / 10).push(decimal_digit((n % 10) as int))
    }
}

/// The decimal rendering of an integer: a leading `'-'` for a negative
/// value, then the digits of its magnitude.
pub open spec fn decimal_int(n: int) -> Seq<char> {
    if n < 0 {
        seq!['-'] + decimal_nat((-n) as nat)
    } else {
        decimal_nat(n as nat)
    }
}

/// Relies on `i64::to_string` from std: it renders the value in decimal,
/// minus sign first for negative values, without leading zeros.
#[verifier::external_body]
fn i64_to_decimal(n: i64) -> (r: String)
    ensures
        r@ == decimal_int(n as int),
{
    n.to_string()
}

/// A mapper that doubles an integer. Defined on inputs whose double still
/// fits in an `i64`.
pub struct DoubleMapper;

impl Mapper<i64, i64> for DoubleMapper {
    open spec fn pre(&self, s: i64) -> bool {
        -4611686018427387904 <= s <= 4611686018427387903
    }

    open spec fn map_spec(&self, s: i64) -> i64 {
        (s * 2) as i64
    }

    fn map(&self, s: &i64) -> (t: i64) {
        *s * 2
    }
}

/// A mapper that renders an integer as its decimal string.
pub struct ToDecimalMapper;

impl Mapper<i64, String> for ToDecimalMapper {
    open spec fn pre(&self, s: i64) -> bool {
        true
    }

    open spec fn map_spec(&self, s: i64) -> Seq<char> {
        decimal_int(s as int)
    }

    fn map(&self, s: &i64) -> (t: String) {
        i64_to_decimal(*s)
    }
}

} // verus!
