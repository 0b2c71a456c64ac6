//! Fixed-point multiply-then-divide, and the division facts the routing
//! bound rests on.

use vstd::arithmetic::div_mod::{
    lemma_div_is_ordered, lemma_div_multiples_vanish, lemma_div_pos_is_pos,
    lemma_fundamental_div_mod, lemma_mod_bound,
};
use vstd::arithmetic::mul::lemma_mul_inequality;
use vstd::prelude::*;

verus! {

/// Truncating fixed-point scaling: `floor(amount * numerator / denominator)`,
/// computed with a full-width intermediate so the product never overflows.
///
/// Relies on `cosmwasm_std::Uint128::checked_multiply_ratio`: it returns
/// `self * numerator / denominator` rounded toward zero, computed via a
/// 256-bit product, and an error exactly when the denominator is zero or the
/// quotient does not fit in 128 bits.
#[verifier::external_body]
pub fn multiply_ratio(amount: u128, numerator: u128, denominator: u128) -> (r: Option<u128>)
    ensures
        (denominator != 0 && amount as int * numerator as int / denominator as int
            <= u128::MAX as int) ==> r == Some(
            (amount as int * numerator as int / denominator as int) as u128,
        ),
        (denominator == 0 || amount as int * numerator as int / denominator as int
            > u128::MAX as int) ==> r is None,
{
    match cosmwasm_std::Uint128::new(amount).checked_multiply_ratio(numerator, denominator) {
        Ok(v) => Some(v.u128()),
        Err(_) => None,
    }
}

/// Truncating division is superadditive: splitting a dividend loses
/// remainders, never gains them.
pub proof fn lemma_div_sum_le(x: int, y: int, d: int)
    requires
        x >= 0,
        y >= 0,
        d > 0,
    ensures
        x / d + y / d <= (x + y) / d,
{
    lemma_fundamental_div_mod(x, d);
    lemma_fundamental_div_mod(y, d);
    lemma_mod_bound(x, d);
    lemma_mod_bound(y, d);
    assert(d * (x / d + y / d) == d * (x / d) + d * (y / d)) by (nonlinear_arith);
    assert(d * (x / d + y / d) <= x + y);
    lemma_div_is_ordered(d * (x / d + y / d), x + y, d);
    lemma_div_multiples_vanish(x / d + y / d, d);
}

/// Scaling by a fraction of at most one never increases the amount.
pub proof fn lemma_scale_le(a: int, p: int, t: int)
    requires
        a >= 0,
        0 <= p <= t,
        t > 0,
    ensures
        0 <= a * p / t <= a,
{
    lemma_mul_inequality(p, t, a);
    assert(a * p >= 0) by (nonlinear_arith)
        requires
            a >= 0,
            p >= 0,
    ;
    assert(a * p <= t * a) by (nonlinear_arith)
        requires
            p * a <= t * a,
    ;
    vstd::arithmetic::div_mod::lemma_multiply_divide_le(a * p, t, a);
    lemma_div_pos_is_pos(a * p, t);
}

} // verus!
