//! Whole-number arithmetic that the rest of the crate builds on.
use vstd::prelude::*;

verus! {

pub open spec fn abs(x: int) -> int {
    if x < 0 {
        -x
    } else {
        x
    }
}

/// Quotient rounded towards zero.
pub open spec fn trunc_div(n: int, d: int) -> int
    recommends
        d > 0,
{
    if n >= 0 {
        n / d
    } else {
        -((-n) / d)
    }
}

/// Rounding towards zero keeps the sign and loses less than one.
pub proof fn lemma_trunc_div(n: int, d: int)
    requires
        d > 0,
    ensures
        d * abs(trunc_div(n, d)) <= abs(n) < d * abs(trunc_div(n, d)) + d,
        n >= 0 ==> trunc_div(n, d) >= 0,
        n <= 0 ==> trunc_div(n, d) <= 0,
{
    let a: int = abs(n);
    assert(d * (a / d) <= a < d * (a / d) + d && a / d >= 0) by (nonlinear_arith)
        requires
            d > 0,
            a >= 0,
    ;
}

/// The value `wide` as an `i64`, if it is one.
pub fn narrow(wide: i128) -> (r: Option<i64>)
    ensures
        match r {
            Some(v) => v == wide,
            None => wide < i64::MIN || wide > i64::MAX,
        },
{
    if wide >= i64::MIN as i128 && wide <= i64::MAX as i128 {
        Some(wide as i64)
    } else {
        None
    }
}

} // verus!
