//! The constant-product (`x * y = k`) curve, without fees.

use vstd::prelude::*;
use vstd::arithmetic::div_mod::{lemma_fundamental_div_mod, lemma_mod_pos_bound};

verus! {

/// `floor(source * y / (x + source))`: what leaves a pool with reserves
/// `x` (in) and `y` (out) when `source` comes in.
pub open spec fn curve_output(source: int, x: int, y: int) -> int {
    source * y / (x + source)
}

/// `ceil(n / d)`.
pub open spec fn ceil_div(n: int, d: int) -> int {
    if n % d == 0 {
        n / d
    } else {
        n / d + 1
    }
}

/// `ceil(x * destination / (y - destination))`: what must come into a pool
/// with reserves `x` (in) and `y` (out) for `destination` to leave it.
pub open spec fn curve_input(destination: int, x: int, y: int) -> int {
    ceil_div(x * destination, y - destination)
}

/// Rounding down never hands out more than the exact quotient.
pub proof fn lemma_floor_div_mul_le(n: int, d: int)
    requires
        n >= 0,
        d > 0,
    ensures
        (n / d) * d <= n,
        n / d >= 0,
{
    lemma_fundamental_div_mod(n, d);
    lemma_mod_pos_bound(n, d);
    assert((n / d) * d == d * (n / d)) by (nonlinear_arith);
    assert(n / d >= 0) by (nonlinear_arith)
        requires
            n >= 0,
            d > 0,
            n == d * (n / d) + n % d,
            n % d < d,
    ;
}

/// Rounding up never asks for less than the exact quotient.
pub proof fn lemma_ceil_div_mul_ge(n: int, d: int)
    requires
        n >= 0,
        d > 0,
    ensures
        ceil_div(n, d) * d >= n,
        0 <= ceil_div(n, d) <= n,
{
    lemma_fundamental_div_mod(n, d);
    lemma_mod_pos_bound(n, d);
    let q = n / d;
    let m = n % d;
    assert(q >= 0 && q <= n) by (nonlinear_arith)
        requires
            n >= 0,
            d > 0,
            n == d * q + m,
            0 <= m < d,
    ;
    assert(ceil_div(n, d) * d >= n) by (nonlinear_arith)
        requires
            n == d * q + m,
            0 <= m < d,
            ceil_div(n, d) == (if m == 0 { q } else { q + 1 }),
    ;
    if m != 0 {
        assert(q + 1 <= n) by (nonlinear_arith)
            requires
                n == d * q + m,
                0 < m < d,
                q >= 0,
        ;
    }
}

/// Namespace of the fee-free constant-product computations.
#[derive(Clone, Copy, Debug, Default, PartialEq, Eq)]
pub struct ConstantProductCurve;

impl ConstantProductCurve {
    /// Amount of destination token that `source_amount` buys from reserves
    /// (`swap_source_amount`, `swap_destination_amount`), rounded down.
    pub fn swap_base_input_without_fees(
        source_amount: u128,
        swap_source_amount: u128,
        swap_destination_amount: u128,
    ) -> (r: u128)
        requires
            source_amount * swap_destination_amount <= u128::MAX,
            swap_source_amount + source_amount <= u128::MAX,
            swap_source_amount + source_amount > 0,
        ensures
            r == curve_output(
                source_amount as int,
                swap_source_amount as int,
                swap_destination_amount as int,
            ),
    {
        let numerator = source_amount * swap_destination_amount;
        let denominator = swap_source_amount + source_amount;
        numerator / denominator
    }

    /// Amount of source token needed to take `destination_amount` out of
    /// reserves (`swap_source_amount`, `swap_destination_amount`), rounded up.
    pub fn swap_base_output_without_fees(
        destination_amount: u128,
        swap_source_amount: u128,
        swap_destination_amount: u128,
    ) -> (r: u128)
        requires
            destination_amount < swap_destination_amount,
            swap_source_amount * destination_amount <= u128::MAX,
        ensures
            r == curve_input(
                destination_amount as int,
                swap_source_amount as int,
                swap_destination_amount as int,
            ),
    {
        let numerator = swap_source_amount * destination_amount;
        let denominator = swap_destination_amount - destination_amount;
        proof {
            lemma_ceil_div_mul_ge(numerator as int, denominator as int);
        }
        let quotient = numerator / denominator;
        if numerator % denominator == 0 {
            quotient
        } else {
            quotient + 1
        }
    }
}

} // verus!
