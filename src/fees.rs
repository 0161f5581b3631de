//! Fee arithmetic over rates expressed in millionths.

use vstd::prelude::*;
use vstd::arithmetic::div_mod::{lemma_fundamental_div_mod, lemma_mod_pos_bound};

verus! {

/// Denominator of every fee rate: a rate `r` stands for `r / 1_000_000`.
pub const FEE_RATE_DENOMINATOR_VALUE: u64 = 1_000_000;

/// Largest swap or launch fee rate that a configuration may hold (3%).
pub const MAX_FEE_RATE_VALUE: u64 = 30_000;

/// `floor(amount * rate / FEE_RATE_DENOMINATOR_VALUE)`.
pub open spec fn fee_of(amount: int, rate: int) -> int {
    amount * rate / (FEE_RATE_DENOMINATOR_VALUE as int)
}

/// Smallest gross amount whose fee-deducted remainder reaches `post`:
/// `ceil(post * D / (D - rate))`, or `post` itself when the rate is zero.
pub open spec fn pre_fee_of(post: int, rate: int) -> int {
    let d = FEE_RATE_DENOMINATOR_VALUE as int;
    if rate == 0 {
        post
    } else {
        (post * d + (d - rate) - 1) / (d - rate)
    }
}

/// Reconstructing a gross amount and then deducting its fee leaves at least
/// the net amount asked for: the rounding always favours the protocol.
pub proof fn lemma_pre_fee_covers_fee(post: int, rate: int)
    requires
        post >= 0,
        0 <= rate < FEE_RATE_DENOMINATOR_VALUE,
    ensures
        pre_fee_of(post, rate) - fee_of(pre_fee_of(post, rate), rate) >= post,
        pre_fee_of(post, rate) >= post,
        0 <= fee_of(pre_fee_of(post, rate), rate) <= pre_fee_of(post, rate),
{
    let d = FEE_RATE_DENOMINATOR_VALUE as int;
    let pre = pre_fee_of(post, rate);
    if rate != 0 {
        let q = d - rate;
        let n = post * d + q - 1;
        lemma_fundamental_div_mod(n, q);
        lemma_mod_pos_bound(n, q);
        assert(post * d >= 0) by (nonlinear_arith)
            requires
                post >= 0,
                d > 0,
        ;
        // pre * q >= post * d
        assert(pre * q >= post * d) by (nonlinear_arith)
            requires
                n == q * pre + n % q,
                0 <= n % q < q,
                n == post * d + q - 1,
        ;
        assert(pre >= 0) by (nonlinear_arith)
            requires
                pre * q >= post * d,
                post * d >= 0,
                q > 0,
        ;
    }
    assert(pre * rate >= 0) by (nonlinear_arith)
        requires
            pre >= 0,
            rate >= 0,
    ;
    let fee = fee_of(pre, rate);
    lemma_fundamental_div_mod(pre * rate, d);
    lemma_mod_pos_bound(pre * rate, d);
    assert(0 <= fee <= pre) by (nonlinear_arith)
        requires
            pre * rate == d * fee + (pre * rate) % d,
            0 <= (pre * rate) % d < d,
            0 <= rate < d,
            pre >= 0,
    ;
    if rate != 0 {
        let q = d - rate;
        assert(pre * q >= post * d) by (nonlinear_arith)
            requires
                (post * d + q - 1) == q * pre + (post * d + q - 1) % q,
                0 <= (post * d + q - 1) % q < q,
        ;
        assert(pre - fee >= post) by (nonlinear_arith)
            requires
                pre * q >= post * d,
                q == d - rate,
                pre * rate == d * fee + (pre * rate) % d,
                0 <= (pre * rate) % d,
                d > 0,
        ;
    } else {
        assert(fee == 0) by (nonlinear_arith)
            requires
                fee == pre * rate / d,
                rate == 0,
                d > 0,
        ;
    }
}

/// Namespace of the fee computations.
pub struct Fees {}

/// `floor(token_amount * fee_numerator / fee_denominator)`; `None` when the
/// product does not fit in a `u128` or the denominator is zero.
pub fn floor_div(token_amount: u128, fee_numerator: u128, fee_denominator: u128) -> (r: Option<
    u128,
>)
    ensures
        r == (if token_amount * fee_numerator > u128::MAX || fee_denominator == 0 {
            None
        } else {
            Some((token_amount * fee_numerator / (fee_denominator as int)) as u128)
        }),
{
    match token_amount.checked_mul(fee_numerator) {
        Some(product) => product.checked_div(fee_denominator),
        None => None,
    }
}

impl Fees {
    /// The protocol's cut of `amount` at `protocol_fee_rate`, rounded down.
    /// `None` (never a zero fee) when `amount * protocol_fee_rate` overflows.
    pub fn protocol_fee(amount: u128, protocol_fee_rate: u64) -> (r: Option<u128>)
        ensures
            r == (if amount * protocol_fee_rate > u128::MAX {
                None
            } else {
                Some(fee_of(amount as int, protocol_fee_rate as int) as u128)
            }),
    {
        floor_div(amount, protocol_fee_rate as u128, FEE_RATE_DENOMINATOR_VALUE as u128)
    }

    /// The smallest amount which, once its fee at `trade_fee_rate` is taken,
    /// still leaves `post_fee_amount`; rounds up so the protocol never loses.
    /// `None` when the rate reaches the denominator or the computation
    /// overflows.
    pub fn calculate_pre_fee_amount(post_fee_amount: u128, trade_fee_rate: u64) -> (r: Option<
        u128,
    >)
        ensures
            r == (if trade_fee_rate == 0 {
                Some(post_fee_amount)
            } else if trade_fee_rate >= FEE_RATE_DENOMINATOR_VALUE || post_fee_amount
                * FEE_RATE_DENOMINATOR_VALUE + (FEE_RATE_DENOMINATOR_VALUE - trade_fee_rate) - 1
                > u128::MAX {
                None
            } else {
                Some(pre_fee_of(post_fee_amount as int, trade_fee_rate as int) as u128)
            }),
    {
        if trade_fee_rate == 0 {
            Some(post_fee_amount)
        } else {
            let numerator = match post_fee_amount.checked_mul(FEE_RATE_DENOMINATOR_VALUE as u128) {
                Some(n) => n,
                None => return None,
            };
            let denominator = match (FEE_RATE_DENOMINATOR_VALUE as u128).checked_sub(
                trade_fee_rate as u128,
            ) {
                Some(d) => d,
                None => return None,
            };
            if denominator == 0 {
                return None;
            }
            let padded = match numerator.checked_add(denominator - 1) {
                Some(p) => p,
                None => return None,
            };
            padded.checked_div(denominator)
        }
    }
}

} // verus!
