//! Fixed-point decimal numbers, and the truncating division they are
//! computed with.

use vstd::arithmetic::div_mod::{lemma_div_is_ordered, lemma_div_nonincreasing, lemma_div_pos_is_pos};
use vstd::prelude::*;

verus! {

/// Number of raw units in one whole unit: every [`Decimal`] carries six
/// fractional decimal digits.
pub const SCALE: i128 = 1_000_000;

/// A fixed-point decimal number with six fractional digits, stored as a raw
/// signed count of millionths; the value represented is `raw / 1_000_000`.
/// Monetary amounts and yearly rates are both values of this type.
#[derive(Clone, Copy, PartialEq, Eq, Structural, Debug)]
pub struct Decimal {
    pub raw: i128,
}

impl View for Decimal {
    type V = int;

    open spec fn view(&self) -> int {
        self.raw as int
    }
}

/// The decimal whose raw count of millionths is `v`, for spec use.
pub open spec fn dec(v: int) -> Decimal {
    Decimal { raw: v as i128 }
}

impl Decimal {
    /// The decimal with the given raw count of millionths.
    pub fn from_raw(raw: i128) -> (r: Decimal)
        ensures
            r@ == raw as int,
    {
        Decimal { raw }
    }

    /// The decimal for a whole number of units.
    pub fn from_int(units: i64) -> (r: Decimal)
        ensures
            r@ == units as int * SCALE as int,
    {
        Decimal { raw: (units as i128) * SCALE }
    }

    /// Zero units.
    pub fn zero() -> (r: Decimal)
        ensures
            r@ == 0,
    {
        Decimal { raw: 0 }
    }

    /// The raw count of millionths.
    pub fn raw(&self) -> (r: i128)
        ensures
            r as int == self@,
    {
        self.raw
    }
}

/// Integer division truncated towards zero: what Rust's `/` computes on
/// signed integers, for a positive divisor.
pub open spec fn div_trunc(a: int, b: int) -> int
    recommends
        b > 0,
{
    if a >= 0 {
        a / b
    } else {
        -((-a) / b)
    }
}

/// Truncating division never grows the magnitude of the dividend, and it
/// keeps its sign.
pub proof fn lemma_div_trunc_bounds(a: int, b: int)
    requires
        b > 0,
    ensures
        a >= 0 ==> 0 <= div_trunc(a, b) <= a,
        a < 0 ==> a <= div_trunc(a, b) <= 0,
{
    if a >= 0 {
        lemma_div_pos_is_pos(a, b);
        lemma_div_nonincreasing(a, b);
    } else {
        lemma_div_pos_is_pos(-a, b);
        lemma_div_nonincreasing(-a, b);
    }
}

/// A bound on the magnitude of the dividend bounds the magnitude of a
/// truncating quotient.
pub proof fn lemma_div_trunc_abs_le(a: int, b: int, m: int)
    requires
        b > 0,
        -m <= a <= m,
    ensures
        -(m / b) <= div_trunc(a, b) <= m / b,
{
    if a >= 0 {
        lemma_div_pos_is_pos(a, b);
        lemma_div_is_ordered(a, m, b);
    } else {
        lemma_div_pos_is_pos(-a, b);
        lemma_div_is_ordered(-a, m, b);
    }
}

} // verus!
