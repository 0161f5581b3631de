//! A complete trade on the curve: fee deduction composed with the
//! constant-product formula, with the invariant products before and after.

use vstd::prelude::*;
use crate::constant_product::{
    ConstantProductCurve, curve_input, curve_output, lemma_ceil_div_mul_ge, lemma_floor_div_mul_le,
};
use crate::error::ErrorCode;
use crate::fees::{Fees, FEE_RATE_DENOMINATOR_VALUE, fee_of, lemma_pre_fee_covers_fee, pre_fee_of};

verus! {

/// `None` for zero, `Some(x)` otherwise.
pub fn map_zero_to_none(x: u128) -> (r: Option<u128>)
    ensures
        r == (if x == 0 {
            None
        } else {
            Some(x)
        }),
{
    if x == 0 {
        None
    } else {
        Some(x)
    }
}

/// Which token a trade takes in.
#[derive(Clone, Copy, Debug, PartialEq, Eq, Structural)]
pub enum TradeDirection {
    /// Input token 0, output token 1.
    ZeroForOne,
    /// Input token 1, output token 0.
    OneForZero,
}

impl TradeDirection {
    /// The direction with input and output exchanged.
    pub open spec fn spec_opposite(self) -> TradeDirection {
        match self {
            TradeDirection::ZeroForOne => TradeDirection::OneForZero,
            TradeDirection::OneForZero => TradeDirection::ZeroForOne,
        }
    }

    /// The direction of the trade from B to A, given the one from A to B.
    pub fn opposite(&self) -> (r: TradeDirection)
        ensures
            r == self.spec_opposite(),
            r != *self,
    {
        match self {
            TradeDirection::ZeroForOne => TradeDirection::OneForZero,
            TradeDirection::OneForZero => TradeDirection::ZeroForOne,
        }
    }
}

impl From<TradeDirection> for bool {
    /// `true` for token 1 in, `false` for token 0 in.
    fn from(val: TradeDirection) -> (r: bool)
        ensures
            r == (val == TradeDirection::OneForZero),
    {
        match val {
            TradeDirection::ZeroForOne => false,
            TradeDirection::OneForZero => true,
        }
    }
}

impl vstd::std_specs::convert::FromSpecImpl<TradeDirection> for bool {
    open spec fn obeys_from_spec() -> bool {
        true
    }

    open spec fn from_spec(v: TradeDirection) -> bool {
        v == TradeDirection::OneForZero
    }
}

/// Direction in which to round a conversion.
#[derive(Clone, Copy, Debug, PartialEq, Eq, Structural)]
pub enum RoundDirection {
    /// Round towards zero: 1.9 becomes 1.
    Floor,
    /// Round away from zero: 1.1 becomes 2.
    Ceiling,
}

/// Amounts of both tokens of a pool.
#[derive(Clone, Copy, Debug, PartialEq, Eq, Structural)]
pub struct TradingTokenResult {
    /// Amount of token 0.
    pub token_0_amount: u128,
    /// Amount of token 1.
    pub token_1_amount: u128,
}

/// Everything one trade on the curve produces.
#[derive(Clone, Copy, Debug, PartialEq, Eq, Structural)]
pub struct SwapResult {
    /// Source reserve after the trade (the fee stays in the vault).
    pub new_swap_source_amount: u128,
    /// Destination reserve after the trade.
    pub new_swap_destination_amount: u128,
    /// Source amount taken in, fee included.
    pub source_amount_swapped: u128,
    /// Destination amount handed out.
    pub destination_amount_swapped: u128,
    /// Part of the source amount owed to the protocol.
    pub protocol_fee: u128,
    /// `swap_source_amount * swap_destination_amount` before the trade.
    pub constant_before: u128,
    /// Product of the fee-excluded reserves after the trade.
    pub constant_after: u128,
}

/// The result that a trade in and out of reserves `x` and `y` produces, when
/// every intermediate fits in a `u128`.
pub open spec fn trade_result(
    x: int,
    y: int,
    source: int,
    destination: int,
    fee: int,
) -> SwapResult {
    SwapResult {
        new_swap_source_amount: (x + source) as u128,
        new_swap_destination_amount: (y - destination) as u128,
        source_amount_swapped: source as u128,
        destination_amount_swapped: destination as u128,
        protocol_fee: fee as u128,
        constant_before: (x * y) as u128,
        constant_after: ((x + source - fee) * (y - destination)) as u128,
    }
}

/// Whether every intermediate of a trade fits in a `u128`.
pub open spec fn trade_fits(x: int, y: int, source: int, destination: int, fee: int) -> bool {
    &&& x + source <= u128::MAX
    &&& x * y <= u128::MAX
    &&& (x + source - fee) * (y - destination) <= u128::MAX
}

/// Outcome of an exact-input trade of `source` into reserves `x` (in) and
/// `y` (out) at fee rate `rate`.
pub open spec fn base_input_result(source: int, x: int, y: int, rate: int) -> Option<SwapResult> {
    let fee = fee_of(source, rate);
    let net = source - fee;
    let out = curve_output(net, x, y);
    if source * rate > u128::MAX || net < 0 || net * y > u128::MAX || x + net == 0 || !trade_fits(
        x,
        y,
        source,
        out,
        fee,
    ) {
        None
    } else {
        Some(trade_result(x, y, source, out, fee))
    }
}

/// Outcome of an exact-output trade taking `destination` out of reserves `x`
/// (in) and `y` (out) at fee rate `rate`.
pub open spec fn base_output_result(destination: int, x: int, y: int, rate: int) -> Option<
    SwapResult,
> {
    let d = FEE_RATE_DENOMINATOR_VALUE as int;
    let net = curve_input(destination, x, y);
    let gross = pre_fee_of(net, rate);
    let fee = fee_of(gross, rate);
    if destination >= y || x * destination > u128::MAX || (rate != 0 && (rate >= d || net * d + (d
        - rate) - 1 > u128::MAX)) || gross * rate > u128::MAX || !trade_fits(
        x,
        y,
        gross,
        destination,
        fee,
    ) {
        None
    } else {
        Some(trade_result(x, y, gross, destination, fee))
    }
}

/// An exact-input trade never lowers the product of the fee-excluded
/// reserves.
pub proof fn lemma_base_input_keeps_product(source: int, x: int, y: int, rate: int)
    requires
        0 <= source,
        0 <= x,
        0 <= y,
        0 <= rate,
        base_input_result(source, x, y, rate) is Some,
    ensures
        base_input_result(source, x, y, rate).unwrap().constant_after
            >= base_input_result(source, x, y, rate).unwrap().constant_before,
{
    let fee = fee_of(source, rate);
    let net = source - fee;
    let den = x + net;
    let out = curve_output(net, x, y);
    assert(net * y >= 0) by (nonlinear_arith)
        requires
            net >= 0,
            y >= 0,
    ;
    lemma_floor_div_mul_le(net * y, den);
    assert(out <= y) by (nonlinear_arith)
        requires
            out * den <= net * y,
            den >= net,
            net >= 0,
            den > 0,
            y >= 0,
    ;
    assert(x * y >= 0) by (nonlinear_arith)
        requires
            x >= 0,
            y >= 0,
    ;
    assert((x + source - fee) * (y - out) >= x * y) by (nonlinear_arith)
        requires
            out * den <= net * y,
            den == x + net,
            net == source - fee,
    ;
}

/// An exact-output trade never lowers the product of the fee-excluded
/// reserves.
pub proof fn lemma_base_output_keeps_product(destination: int, x: int, y: int, rate: int)
    requires
        0 <= destination,
        0 <= x,
        0 <= y,
        0 <= rate,
        base_output_result(destination, x, y, rate) is Some,
    ensures
        base_output_result(destination, x, y, rate).unwrap().constant_after
            >= base_output_result(destination, x, y, rate).unwrap().constant_before,
{
    let net = curve_input(destination, x, y);
    let gross = pre_fee_of(net, rate);
    let fee = fee_of(gross, rate);
    let den = y - destination;
    assert(x * destination >= 0) by (nonlinear_arith)
        requires
            x >= 0,
            destination >= 0,
    ;
    lemma_ceil_div_mul_ge(x * destination, den);
    lemma_pre_fee_covers_fee(net, rate);
    assert(x * y >= 0) by (nonlinear_arith)
        requires
            x >= 0,
            y >= 0,
    ;
    assert((x + gross - fee) * den >= x * y) by (nonlinear_arith)
        requires
            net * den >= x * destination,
            gross - fee >= net,
            den == y - destination,
            den > 0,
            x >= 0,
    ;
}

/// Namespace of the complete trade computations.
#[derive(Clone, Copy, Debug, Default, PartialEq, Eq)]
pub struct CurveCalculator {}

impl CurveCalculator {
    /// Refuses a pool one of whose sides is empty.
    pub fn validate_supply(token_0_amount: u64, token_1_amount: u64) -> (r: Result<(), ErrorCode>)
        ensures
            r == (if token_0_amount == 0 || token_1_amount == 0 {
                Err(ErrorCode::EmptySupply)
            } else {
                Ok(())
            }),
    {
        if token_0_amount == 0 || token_1_amount == 0 {
            return Err(ErrorCode::EmptySupply);
        }
        Ok(())
    }

    /// Deducts the protocol fee from `source_amount`, then computes what the
    /// remainder buys on the curve, rounding down. `None` when any step would
    /// overflow or divide by zero.
    pub fn swap_base_input(
        source_amount: u128,
        swap_source_amount: u128,
        swap_destination_amount: u128,
        protocol_fee_rate: u64,
    ) -> (r: Option<SwapResult>)
        ensures
            r == base_input_result(
                source_amount as int,
                swap_source_amount as int,
                swap_destination_amount as int,
                protocol_fee_rate as int,
            ),
            r matches Some(res) ==> res.constant_after >= res.constant_before,
            r matches Some(res) ==> res.source_amount_swapped == source_amount
                && res.protocol_fee <= source_amount && res.destination_amount_swapped
                <= swap_destination_amount,
    {
        let x = swap_source_amount;
        let y = swap_destination_amount;
        proof {
            if base_input_result(source_amount as int, x as int, y as int, protocol_fee_rate as int) is Some {
                lemma_base_input_keeps_product(source_amount as int, x as int, y as int, protocol_fee_rate as int);
            }
        }
        let protocol_fee = match Fees::protocol_fee(source_amount, protocol_fee_rate) {
            Some(f) => f,
            None => return None,
        };
        let source_amount_less_fees = match source_amount.checked_sub(protocol_fee) {
            Some(n) => n,
            None => return None,
        };
        let net = source_amount_less_fees;
        if net.checked_mul(y).is_none() {
            return None;
        }
        let denominator = match x.checked_add(net) {
            Some(dd) => dd,
            None => return None,
        };
        if denominator == 0 {
            return None;
        }
        let destination_amount_swapped = ConstantProductCurve::swap_base_input_without_fees(
            net,
            x,
            y,
        );
        proof {
            lemma_floor_div_mul_le(net * y, denominator as int);
            assert(destination_amount_swapped <= y) by (nonlinear_arith)
                requires
                    destination_amount_swapped * denominator <= net * y,
                    denominator >= net,
                    denominator > 0,
            ;
        }
        let new_swap_source_amount = match x.checked_add(source_amount) {
            Some(s) => s,
            None => return None,
        };
        let new_swap_destination_amount = y - destination_amount_swapped;
        let constant_before = match x.checked_mul(y) {
            Some(c) => c,
            None => return None,
        };
        let constant_after = match (new_swap_source_amount - protocol_fee).checked_mul(
            new_swap_destination_amount,
        ) {
            Some(c) => c,
            None => return None,
        };
        Some(
            SwapResult {
                new_swap_source_amount,
                new_swap_destination_amount,
                source_amount_swapped: source_amount,
                destination_amount_swapped,
                protocol_fee,
                constant_before,
                constant_after,
            },
        )
    }

    /// Computes the source amount, rounded up, that takes
    /// `destination_amount` out of the pool, then the gross amount whose fee
    /// deduction leaves it. `None` when the pool cannot supply
    /// `destination_amount` or any step would overflow or divide by zero.
    pub fn swap_base_output(
        destination_amount: u128,
        swap_source_amount: u128,
        swap_destination_amount: u128,
        protocol_fee_rate: u64,
    ) -> (r: Option<SwapResult>)
        ensures
            r == base_output_result(
                destination_amount as int,
                swap_source_amount as int,
                swap_destination_amount as int,
                protocol_fee_rate as int,
            ),
            r matches Some(res) ==> res.constant_after >= res.constant_before,
            r matches Some(res) ==> res.destination_amount_swapped == destination_amount
                && destination_amount < swap_destination_amount && res.protocol_fee
                <= res.source_amount_swapped,
    {
        let x = swap_source_amount;
        let y = swap_destination_amount;
        proof {
            if base_output_result(destination_amount as int, x as int, y as int, protocol_fee_rate as int) is Some {
                lemma_base_output_keeps_product(destination_amount as int, x as int, y as int, protocol_fee_rate as int);
            }
        }
        if destination_amount >= y {
            return None;
        }
        if x.checked_mul(destination_amount).is_none() {
            return None;
        }
        let source_amount_swapped = ConstantProductCurve::swap_base_output_without_fees(
            destination_amount,
            x,
            y,
        );
        let source_amount = match Fees::calculate_pre_fee_amount(
            source_amount_swapped,
            protocol_fee_rate,
        ) {
            Some(s) => s,
            None => return None,
        };
        let protocol_fee = match Fees::protocol_fee(source_amount, protocol_fee_rate) {
            Some(f) => f,
            None => return None,
        };
        proof {
            if protocol_fee_rate < FEE_RATE_DENOMINATOR_VALUE {
                lemma_pre_fee_covers_fee(source_amount_swapped as int, protocol_fee_rate as int);
            }
        }
        let new_swap_source_amount = match x.checked_add(source_amount) {
            Some(s) => s,
            None => return None,
        };
        let new_swap_destination_amount = y - destination_amount;
        let constant_before = match x.checked_mul(y) {
            Some(c) => c,
            None => return None,
        };
        let constant_after = match (new_swap_source_amount - protocol_fee).checked_mul(
            new_swap_destination_amount,
        ) {
            Some(c) => c,
            None => return None,
        };
        Some(
            SwapResult {
                new_swap_source_amount,
                new_swap_destination_amount,
                source_amount_swapped: source_amount,
                destination_amount_swapped: destination_amount,
                protocol_fee,
                constant_before,
                constant_after,
            },
        )
    }
}

} // verus!
