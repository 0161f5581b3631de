//! The pool record and its one-way life: trading, ready to launch, launched.
//!
//! Token movements are left to the caller. Every operation here validates
//! and computes first, and changes the record only once nothing can fail; it
//! then reports the amounts the caller must move.

use vstd::prelude::*;
use crate::address::Address;
use crate::calculator::{
    CurveCalculator, SwapResult, TradeDirection, base_input_result, base_output_result,
};
use crate::config::ConfigState;
use crate::error::ErrorCode;
use crate::fees::{Fees, fee_of};

verus! {

/// `2^32`, the scale of a fixed-point price.
pub const Q32: u128 = 4_294_967_296;

/// Where a pool stands in its one-way life.
#[derive(Clone, Copy, Debug, PartialEq, Eq, Structural)]
pub enum Phase {
    /// Trades are accepted; the reserve bound has not been reached.
    Trading,
    /// The reserve bound was reached; trades are still accepted and the pool
    /// may be launched.
    ReadyToLaunch,
    /// The reserves have moved to the permanent pool; nothing more trades.
    Launched,
}

/// Which amount a trade fixes.
#[derive(Clone, Copy, Debug, PartialEq, Eq, Structural)]
pub enum SwapMode {
    /// The input is fixed; the output follows from the curve.
    BaseInput,
    /// The output is fixed; the input follows from the curve.
    BaseOutput,
}

/// A trade as a caller asks for it.
#[derive(Clone, Copy, Debug, PartialEq, Eq, Structural)]
pub struct SwapRequest {
    pub direction: TradeDirection,
    pub mode: SwapMode,
    /// `BaseInput`: the amount the trader sends. `BaseOutput`: the amount
    /// the trader wants to receive, net of the token's transfer fee.
    pub amount: u64,
    /// `BaseInput`: the least the trader accepts to receive.
    /// `BaseOutput`: the most the trader accepts to send.
    pub limit: u64,
}

/// The transfer fees that the token program charges on the two legs of a
/// trade, as quoted by it.
///
/// `BaseInput`: `input` is the fee on the amount sent, `output` the fee on
/// the quoted output. `BaseOutput`: `output` is the fee that must be added to
/// the wanted amount so that it arrives net, `input` the same for the quoted
/// input.
#[derive(Clone, Copy, Debug, PartialEq, Eq, Structural)]
pub struct TransferFees {
    pub input: u64,
    pub output: u64,
}

/// Raw balances of the pool's two vaults, accrued fees included.
#[derive(Clone, Copy, Debug, PartialEq, Eq, Structural)]
pub struct VaultBalances {
    pub vault_0: u64,
    pub vault_1: u64,
}

/// What an accepted trade did, and the two transfers the caller must make.
#[derive(Clone, Copy, Debug, PartialEq, Eq, Structural)]
pub struct SwapOutcome {
    pub direction: TradeDirection,
    pub mode: SwapMode,
    /// Fee-excluded input reserve before the trade.
    pub input_vault_before: u64,
    /// Fee-excluded output reserve before the trade.
    pub output_vault_before: u64,
    /// Input that reached the curve, protocol fee included.
    pub input_amount: u64,
    /// Output the curve handed out.
    pub output_amount: u64,
    /// Amount to move from the trader to the input vault.
    pub input_transfer_amount: u64,
    pub input_transfer_fee: u64,
    /// Amount to move from the output vault to the trader.
    pub output_transfer_amount: u64,
    pub output_transfer_fee: u64,
    /// Part of the input accrued to the protocol.
    pub protocol_fee: u64,
    /// Raw vault balances once both transfers are made.
    pub vault_0_after: u64,
    pub vault_1_after: u64,
    /// Distance of the bound side's balance to the reserve bound.
    pub remaining_tokens: u64,
    /// Whether the bound side's balance reached the reserve bound.
    pub reached_reserve_bound: bool,
}

/// Direction and fee-excluded reserves of a trade, with both spot prices.
#[derive(Clone, Copy, Debug, PartialEq, Eq, Structural)]
pub struct SwapCalculation {
    pub trade_direction: TradeDirection,
    pub total_input_token_amount: u64,
    pub total_output_token_amount: u64,
    pub token_0_price_x64: u128,
    pub token_1_price_x64: u128,
}

/// The amounts of a launch: what each side hands to the permanent pool,
/// and what stays owed to the protocol.
#[derive(Clone, Copy, Debug, PartialEq, Eq, Structural)]
pub struct LaunchPlan {
    /// Liquidity handed to the permanent pool, per side.
    pub amount_0: u64,
    pub amount_1: u64,
    /// Launch tax, per side.
    pub launch_tax_0: u64,
    pub launch_tax_1: u64,
    /// Transfer fee charged on the hand-off, per side.
    pub transfer_fee_0: u64,
    pub transfer_fee_1: u64,
    /// Everything owed to the protocol after the launch (accrued swap fees
    /// and launch tax), per side.
    pub launch_fees_0: u64,
    pub launch_fees_1: u64,
}

/// The accounts a pool is tied to.
#[derive(Clone, Copy, Debug, Default, PartialEq, Eq)]
pub struct DexKeys {
    pub pool_creator: Address,
    pub token_0_vault: Address,
    pub token_1_vault: Address,
    pub token_0_mint: Address,
    pub token_1_mint: Address,
    pub token_0_program: Address,
    pub token_1_program: Address,
}

/// The record of one pool.
#[derive(Clone, Copy, Debug, Default, PartialEq, Eq)]
pub struct DexState {
    pub pool_creator: Address,
    pub token_0_vault: Address,
    pub token_1_vault: Address,
    /// Set once, by the launch; never cleared.
    pub is_launched: bool,
    /// Set once the bound side's balance reaches the reserve bound.
    pub is_ready_to_launch: bool,
    /// `false`: the bound applies to vault 0; `true`: to vault 1.
    pub vault_for_reserve_bound: bool,
    /// `true`: the bound is reached from below (`>=`); `false`: from above
    /// (`<=`).
    pub reserve_bound_ge: bool,
    pub vault_reserve_bound: u64,
    pub token_0_mint: Address,
    pub token_1_mint: Address,
    pub token_0_program: Address,
    pub token_1_program: Address,
    pub mint_0_decimals: u8,
    pub mint_1_decimals: u8,
    /// Protocol fees accrued from trades and still in the vaults.
    pub swap_fees_token_0: u64,
    pub swap_fees_token_1: u64,
    /// What the launch left owed to the protocol.
    pub launch_fees_token_0: u64,
    pub launch_fees_token_1: u64,
}

/// A fresh pool tied to `keys`: trading, with nothing accrued.
pub open spec fn fresh_dex(
    keys: DexKeys,
    mint_0_decimals: u8,
    mint_1_decimals: u8,
    vault_for_reserve_bound: bool,
    reserve_bound_ge: bool,
    vault_reserve_bound: u64,
) -> DexState {
    DexState {
        pool_creator: keys.pool_creator,
        token_0_vault: keys.token_0_vault,
        token_1_vault: keys.token_1_vault,
        is_launched: false,
        is_ready_to_launch: false,
        vault_for_reserve_bound,
        reserve_bound_ge,
        vault_reserve_bound,
        token_0_mint: keys.token_0_mint,
        token_1_mint: keys.token_1_mint,
        token_0_program: keys.token_0_program,
        token_1_program: keys.token_1_program,
        mint_0_decimals,
        mint_1_decimals,
        swap_fees_token_0: 0,
        swap_fees_token_1: 0,
        launch_fees_token_0: 0,
        launch_fees_token_1: 0,
    }
}

/// `(a, b)` for token 0 in, `(b, a)` for token 1 in: a pair of per-token
/// values ordered as (input side, output side).
pub open spec fn in_out(direction: TradeDirection, a: int, b: int) -> (int, int) {
    match direction {
        TradeDirection::ZeroForOne => (a, b),
        TradeDirection::OneForZero => (b, a),
    }
}

impl DexState {
    /// A launched pool was ready and holds no swap fees; a pool not launched
    /// owes no launch fees.
    pub open spec fn wf(&self) -> bool {
        &&& self.is_launched ==> self.is_ready_to_launch
        &&& self.is_launched ==> self.swap_fees_token_0 == 0 && self.swap_fees_token_1 == 0
        &&& !self.is_launched ==> self.launch_fees_token_0 == 0 && self.launch_fees_token_1 == 0
    }

    pub open spec fn spec_phase(&self) -> Phase {
        if self.is_launched {
            Phase::Launched
        } else if self.is_ready_to_launch {
            Phase::ReadyToLaunch
        } else {
            Phase::Trading
        }
    }

    /// Whether `amount` reaches the reserve bound in the configured
    /// direction.
    pub open spec fn reaches_bound(&self, amount: int) -> bool {
        if self.reserve_bound_ge {
            amount >= self.vault_reserve_bound
        } else {
            amount <= self.vault_reserve_bound
        }
    }

    /// How far `amount` still is from the reserve bound; zero once reached.
    pub open spec fn distance_to_bound(&self, amount: int) -> int {
        let gap = if self.reserve_bound_ge {
            self.vault_reserve_bound - amount
        } else {
            amount - self.vault_reserve_bound
        };
        if gap > 0 {
            gap
        } else {
            0
        }
    }

    /// The balance, of two, that the reserve bound applies to.
    pub open spec fn bound_side(&self, vault_0: int, vault_1: int) -> int {
        if self.vault_for_reserve_bound {
            vault_1
        } else {
            vault_0
        }
    }

    /// Swap fees accrued on the input side of `direction`.
    pub open spec fn input_swap_fees(&self, direction: TradeDirection) -> int {
        in_out(direction, self.swap_fees_token_0 as int, self.swap_fees_token_1 as int).0
    }
}

/// Whether some vault holds less than the fees accrued on it.
pub open spec fn fees_exceed_vaults(s: DexState, vaults: VaultBalances) -> bool {
    vaults.vault_0 < s.swap_fees_token_0 || vaults.vault_1 < s.swap_fees_token_1
}

/// Fee-excluded reserves ordered as (input side, output side).
pub open spec fn trade_reserves(s: DexState, vaults: VaultBalances, direction: TradeDirection) -> (
    int,
    int,
) {
    in_out(
        direction,
        vaults.vault_0 - s.swap_fees_token_0,
        vaults.vault_1 - s.swap_fees_token_1,
    )
}

/// The transfer fee known before the curve runs: on the input for an
/// exact-input trade, on the output for an exact-output trade.
pub open spec fn known_fee(mode: SwapMode, fees: TransferFees) -> u64 {
    match mode {
        SwapMode::BaseInput => fees.input,
        SwapMode::BaseOutput => fees.output,
    }
}

/// The curve's answer to a trade on pool `s`, given the transfer fee known
/// before the curve runs.
pub open spec fn swap_quote(
    s: DexState,
    rate: u64,
    vaults: VaultBalances,
    request: SwapRequest,
    fee: u64,
) -> Result<SwapResult, ErrorCode> {
    let (x, y) = trade_reserves(s, vaults, request.direction);
    if s.is_launched {
        Err(ErrorCode::DexLaunched)
    } else {
        match request.mode {
            SwapMode::BaseInput => {
                let actual_in = if request.amount > fee {
                    request.amount - fee
                } else {
                    0
                };
                if actual_in == 0 {
                    Err(ErrorCode::InvalidInput)
                } else if fees_exceed_vaults(s, vaults) {
                    Err(ErrorCode::Underflow)
                } else {
                    match base_input_result(actual_in, x, y, rate as int) {
                        Some(res) => Ok(res),
                        None => Err(ErrorCode::ZeroTradingTokens),
                    }
                }
            },
            SwapMode::BaseOutput => {
                let actual_out = request.amount + fee;
                if actual_out > u64::MAX {
                    Err(ErrorCode::Overflow)
                } else if fees_exceed_vaults(s, vaults) {
                    Err(ErrorCode::Underflow)
                } else {
                    match base_output_result(actual_out, x, y, rate as int) {
                        Some(res) => Ok(res),
                        None => Err(ErrorCode::ZeroTradingTokens),
                    }
                }
            },
        }
    }
}

/// The record of an accepted trade, once the protocol fee is accrued and the
/// transfers are made: `into_vault` enters the input vault and `out_of_vault`
/// leaves the output vault.
pub open spec fn finish_swap(
    s: DexState,
    vaults: VaultBalances,
    request: SwapRequest,
    res: SwapResult,
    input_transfer_amount: int,
    fees: TransferFees,
    into_vault: int,
    out_of_vault: int,
) -> Result<SwapOutcome, ErrorCode> {
    let (x, y) = trade_reserves(s, vaults, request.direction);
    let (in_raw, out_raw) = in_out(request.direction, vaults.vault_0 as int, vaults.vault_1 as int);
    let in_after = in_raw + into_vault;
    let out_after = out_raw - out_of_vault;
    let (v0, v1) = in_out(request.direction, in_after, out_after);
    let bound_amount = s.bound_side(v0, v1);
    if s.input_swap_fees(request.direction) + res.protocol_fee > u64::MAX {
        Err(ErrorCode::Overflow)
    } else if in_after > u64::MAX {
        Err(ErrorCode::Overflow)
    } else {
        Ok(
            SwapOutcome {
                direction: request.direction,
                mode: request.mode,
                input_vault_before: x as u64,
                output_vault_before: y as u64,
                input_amount: res.source_amount_swapped as u64,
                output_amount: res.destination_amount_swapped as u64,
                input_transfer_amount: input_transfer_amount as u64,
                input_transfer_fee: fees.input,
                output_transfer_amount: out_of_vault as u64,
                output_transfer_fee: fees.output,
                protocol_fee: res.protocol_fee as u64,
                vault_0_after: v0 as u64,
                vault_1_after: v1 as u64,
                remaining_tokens: s.distance_to_bound(bound_amount) as u64,
                reached_reserve_bound: s.reaches_bound(bound_amount),
            },
        )
    }
}

/// What a trade on pool `s` yields: the slippage and transfer-fee checks on
/// top of the curve's answer.
pub open spec fn swap_outcome(
    s: DexState,
    rate: u64,
    vaults: VaultBalances,
    request: SwapRequest,
    fees: TransferFees,
) -> Result<SwapOutcome, ErrorCode> {
    match swap_quote(s, rate, vaults, request, known_fee(request.mode, fees)) {
        Err(e) => Err(e),
        Ok(res) => match request.mode {
            SwapMode::BaseInput => {
                let out = res.destination_amount_swapped as int;
                if fees.output > out {
                    Err(ErrorCode::Underflow)
                } else if out - fees.output == 0 {
                    Err(ErrorCode::InvalidInput)
                } else if out - fees.output < request.limit {
                    Err(ErrorCode::ExceededSlippage)
                } else {
                    finish_swap(
                        s,
                        vaults,
                        request,
                        res,
                        request.amount as int,
                        fees,
                        res.source_amount_swapped as int,
                        out,
                    )
                }
            },
            SwapMode::BaseOutput => {
                let gross = res.source_amount_swapped as int;
                if gross > u64::MAX {
                    Err(ErrorCode::InvalidU64Cast)
                } else if gross == 0 {
                    Err(ErrorCode::InvalidInput)
                } else if gross + fees.input > u64::MAX {
                    Err(ErrorCode::Overflow)
                } else if request.limit < gross + fees.input {
                    Err(ErrorCode::ExceededSlippage)
                } else {
                    finish_swap(
                        s,
                        vaults,
                        request,
                        res,
                        gross + fees.input,
                        fees,
                        gross,
                        res.destination_amount_swapped as int,
                    )
                }
            },
        },
    }
}

/// Pool `s` after trade `o`: the protocol fee accrued on the input side and
/// readiness raised if the bound was reached.
pub open spec fn state_after_swap(s: DexState, o: SwapOutcome) -> DexState {
    DexState {
        swap_fees_token_0: if o.direction == TradeDirection::ZeroForOne {
            (s.swap_fees_token_0 + o.protocol_fee) as u64
        } else {
            s.swap_fees_token_0
        },
        swap_fees_token_1: if o.direction == TradeDirection::OneForZero {
            (s.swap_fees_token_1 + o.protocol_fee) as u64
        } else {
            s.swap_fees_token_1
        },
        is_ready_to_launch: s.is_ready_to_launch || o.reached_reserve_bound,
        ..s
    }
}

/// One side of a launch: the vault balance without accrued swap fees, less
/// the launch tax, less the transfer fee. Yields (hand-off, tax, transfer
/// fee).
pub open spec fn taxed_amount(amount: u64, swap_fees: u64, rate: u64, transfer_fee: u64) -> Result<
    (u64, u64, u64),
    ErrorCode,
> {
    let clean = amount - swap_fees;
    let tax = fee_of(clean, rate as int);
    if amount < swap_fees {
        Err(ErrorCode::Underflow)
    } else if tax > u64::MAX {
        Err(ErrorCode::InvalidU64Cast)
    } else if clean < tax || clean - tax < transfer_fee {
        Err(ErrorCode::Underflow)
    } else {
        Ok(((clean - tax - transfer_fee) as u64, tax as u64, transfer_fee))
    }
}

/// What launching pool `s` yields, given the transfer fee charged on each
/// side's hand-off.
pub open spec fn launch_outcome(
    s: DexState,
    rate: u64,
    vaults: VaultBalances,
    transfer_fee_0: u64,
    transfer_fee_1: u64,
) -> Result<LaunchPlan, ErrorCode> {
    if !s.is_ready_to_launch {
        Err(ErrorCode::DexNotReadyToLaunch)
    } else if s.is_launched {
        Err(ErrorCode::DexLaunched)
    } else {
        match taxed_amount(vaults.vault_0, s.swap_fees_token_0, rate, transfer_fee_0) {
            Err(e) => Err(e),
            Ok((a0, t0, x0)) => match taxed_amount(
                vaults.vault_1,
                s.swap_fees_token_1,
                rate,
                transfer_fee_1,
            ) {
                Err(e) => Err(e),
                Ok((a1, t1, x1)) => if s.swap_fees_token_0 + t0 > u64::MAX || s.swap_fees_token_1
                    + t1 > u64::MAX {
                    Err(ErrorCode::Overflow)
                } else {
                    Ok(
                        LaunchPlan {
                            amount_0: a0,
                            amount_1: a1,
                            launch_tax_0: t0,
                            launch_tax_1: t1,
                            transfer_fee_0: x0,
                            transfer_fee_1: x1,
                            launch_fees_0: (s.swap_fees_token_0 + t0) as u64,
                            launch_fees_1: (s.swap_fees_token_1 + t1) as u64,
                        },
                    )
                },
            },
        }
    }
}

/// Pool `s` after launch `p`: launched, its swap fees folded into what the
/// launch leaves owed.
pub open spec fn state_after_launch(s: DexState, p: LaunchPlan) -> DexState {
    DexState {
        is_launched: true,
        swap_fees_token_0: 0,
        swap_fees_token_1: 0,
        launch_fees_token_0: p.launch_fees_0,
        launch_fees_token_1: p.launch_fees_1,
        ..s
    }
}

/// Everything owed to the protocol, per side: swap fees, and once launched
/// the launch fees too.
pub open spec fn withdraw_outcome(s: DexState) -> Result<(u64, u64), ErrorCode> {
    if !s.is_launched {
        Ok((s.swap_fees_token_0, s.swap_fees_token_1))
    } else if s.swap_fees_token_0 + s.launch_fees_token_0 > u64::MAX || s.swap_fees_token_1
        + s.launch_fees_token_1 > u64::MAX {
        Err(ErrorCode::Overflow)
    } else {
        Ok(
            (
                (s.swap_fees_token_0 + s.launch_fees_token_0) as u64,
                (s.swap_fees_token_1 + s.launch_fees_token_1) as u64,
            ),
        )
    }
}

/// Pool `s` once everything owed is paid out.
pub open spec fn state_after_withdraw(s: DexState) -> DexState {
    DexState {
        swap_fees_token_0: 0,
        swap_fees_token_1: 0,
        launch_fees_token_0: if s.is_launched {
            0
        } else {
            s.launch_fees_token_0
        },
        launch_fees_token_1: if s.is_launched {
            0
        } else {
            s.launch_fees_token_1
        },
        ..s
    }
}

impl DexState {
    /// A fresh pool: trading, with nothing accrued.
    pub fn initialize(
        keys: &DexKeys,
        mint_0_decimals: u8,
        mint_1_decimals: u8,
        vault_for_reserve_bound: bool,
        reserve_bound_ge: bool,
        vault_reserve_bound: u64,
    ) -> (r: DexState)
        ensures
            r == fresh_dex(
                *keys,
                mint_0_decimals,
                mint_1_decimals,
                vault_for_reserve_bound,
                reserve_bound_ge,
                vault_reserve_bound,
            ),
            r.wf(),
            r.spec_phase() == Phase::Trading,
    {
        DexState {
            pool_creator: keys.pool_creator,
            token_0_vault: keys.token_0_vault,
            token_1_vault: keys.token_1_vault,
            is_launched: false,
            is_ready_to_launch: false,
            vault_for_reserve_bound,
            reserve_bound_ge,
            vault_reserve_bound,
            token_0_mint: keys.token_0_mint,
            token_1_mint: keys.token_1_mint,
            token_0_program: keys.token_0_program,
            token_1_program: keys.token_1_program,
            mint_0_decimals,
            mint_1_decimals,
            swap_fees_token_0: 0,
            swap_fees_token_1: 0,
            launch_fees_token_0: 0,
            launch_fees_token_1: 0,
        }
    }

    /// The two deposits that open a pool: `init_amount` of the creator's
    /// token, and the configured initial reserve on the bound side.
    pub fn initial_deposits(
        config: &ConfigState,
        init_amount: u64,
        vault_for_reserve_bound: bool,
    ) -> (r: (u64, u64))
        ensures
            r == (if vault_for_reserve_bound {
                (config.initial_reserve, init_amount)
            } else {
                (init_amount, config.initial_reserve)
            }),
    {
        if vault_for_reserve_bound {
            (config.initial_reserve, init_amount)
        } else {
            (init_amount, config.initial_reserve)
        }
    }

    /// Opens a pool once its vaults hold the deposits: refused when a vault
    /// is empty; the reserve bound comes from the configuration.
    pub fn initialize_dex(
        keys: &DexKeys,
        mint_0_decimals: u8,
        mint_1_decimals: u8,
        config: &ConfigState,
        vault_for_reserve_bound: bool,
        reserve_bound_ge: bool,
        vaults: VaultBalances,
    ) -> (r: Result<DexState, ErrorCode>)
        ensures
            r == (if vaults.vault_0 == 0 || vaults.vault_1 == 0 {
                Err(ErrorCode::EmptySupply)
            } else {
                Ok(
                    fresh_dex(
                        *keys,
                        mint_0_decimals,
                        mint_1_decimals,
                        vault_for_reserve_bound,
                        reserve_bound_ge,
                        config.vault_reserve_bound,
                    ),
                )
            }),
    {
        match CurveCalculator::validate_supply(vaults.vault_0, vaults.vault_1) {
            Ok(()) => {},
            Err(e) => return Err(e),
        }
        Ok(
            DexState::initialize(
                keys,
                mint_0_decimals,
                mint_1_decimals,
                vault_for_reserve_bound,
                reserve_bound_ge,
                config.vault_reserve_bound,
            ),
        )
    }

    /// Where the pool stands.
    pub fn phase(&self) -> (r: Phase)
        ensures
            r == self.spec_phase(),
    {
        if self.is_launched {
            Phase::Launched
        } else if self.is_ready_to_launch {
            Phase::ReadyToLaunch
        } else {
            Phase::Trading
        }
    }

    /// Vault balances without the swap fees accrued in them.
    pub fn vault_amount_without_fee(&self, vault_0: u64, vault_1: u64) -> (r: (u64, u64))
        requires
            vault_0 >= self.swap_fees_token_0,
            vault_1 >= self.swap_fees_token_1,
        ensures
            r == ((vault_0 - self.swap_fees_token_0) as u64, (vault_1 - self.swap_fees_token_1) as u64),
    {
        (vault_0 - self.swap_fees_token_0, vault_1 - self.swap_fees_token_1)
    }

    /// Spot prices, scaled by `2^32`, of token 0 in token 1 and of token 1
    /// in token 0, over the fee-excluded reserves.
    pub fn token_price_x32(&self, vault_0: u64, vault_1: u64) -> (r: (u128, u128))
        requires
            vault_0 > self.swap_fees_token_0,
            vault_1 > self.swap_fees_token_1,
        ensures
            r.0 == (vault_1 - self.swap_fees_token_1) * Q32 / ((vault_0 - self.swap_fees_token_0) as int),
            r.1 == (vault_0 - self.swap_fees_token_0) * Q32 / ((vault_1 - self.swap_fees_token_1) as int),
    {
        let (token_0_amount, token_1_amount) = self.vault_amount_without_fee(vault_0, vault_1);
        proof {
            assert(token_1_amount * Q32 <= u128::MAX) by (nonlinear_arith)
                requires
                    token_1_amount <= u64::MAX,
                    Q32 == 4_294_967_296u128,
            ;
            assert(token_0_amount * Q32 <= u128::MAX) by (nonlinear_arith)
                requires
                    token_0_amount <= u64::MAX,
                    Q32 == 4_294_967_296u128,
            ;
        }
        (
            token_1_amount as u128 * Q32 / token_0_amount as u128,
            token_0_amount as u128 * Q32 / token_1_amount as u128,
        )
    }

    /// Of two vault balances given as (input, output) of a trade, the one
    /// the reserve bound applies to.
    pub fn get_vault_reserve_amount(
        &self,
        input_vault: u64,
        output_vault: u64,
        trade_direction: TradeDirection,
    ) -> (r: u64)
        ensures
            r == self.bound_side(
                in_out(trade_direction, input_vault as int, output_vault as int).0,
                in_out(trade_direction, input_vault as int, output_vault as int).1,
            ),
    {
        let (vault_0, vault_1) = match trade_direction {
            TradeDirection::ZeroForOne => (input_vault, output_vault),
            TradeDirection::OneForZero => (output_vault, input_vault),
        };
        if self.vault_for_reserve_bound {
            vault_1
        } else {
            vault_0
        }
    }

    /// Whether `amount` reaches the reserve bound.
    pub fn is_reached_reserve_bound(&self, amount: u64) -> (r: bool)
        ensures
            r == self.reaches_bound(amount as int),
    {
        if self.reserve_bound_ge {
            amount >= self.vault_reserve_bound
        } else {
            amount <= self.vault_reserve_bound
        }
    }

    /// How far `amount` still is from the reserve bound; zero once reached.
    pub fn get_remaining_tokens(&self, amount: u64) -> (r: u64)
        ensures
            r == self.distance_to_bound(amount as int),
    {
        if self.reserve_bound_ge {
            self.vault_reserve_bound.saturating_sub(amount)
        } else {
            amount.saturating_sub(self.vault_reserve_bound)
        }
    }

    /// The direction of a trade from the vaults it names: token 0 in when
    /// they are (vault 0, vault 1), token 1 in when (vault 1, vault 0).
    pub fn trade_direction(&self, input_vault: &Address, output_vault: &Address) -> (r: Result<
        TradeDirection,
        ErrorCode,
    >)
        ensures
            r == (if input_vault.bytes@ == self.token_0_vault.bytes@ && output_vault.bytes@
                == self.token_1_vault.bytes@ {
                Ok(TradeDirection::ZeroForOne)
            } else if input_vault.bytes@ == self.token_1_vault.bytes@ && output_vault.bytes@
                == self.token_0_vault.bytes@ {
                Ok(TradeDirection::OneForZero)
            } else {
                Err(ErrorCode::InvalidVault)
            }),
    {
        if input_vault.same(&self.token_0_vault) && output_vault.same(&self.token_1_vault) {
            Ok(TradeDirection::ZeroForOne)
        } else if input_vault.same(&self.token_1_vault) && output_vault.same(&self.token_0_vault) {
            Ok(TradeDirection::OneForZero)
        } else {
            Err(ErrorCode::InvalidVault)
        }
    }

    /// The curve's answer to `request`, given the transfer fee known before
    /// the curve runs (on the input for `BaseInput`, on the output for
    /// `BaseOutput`). Changes nothing.
    pub fn quote_swap(
        &self,
        config: &ConfigState,
        vaults: VaultBalances,
        request: SwapRequest,
        fee: u64,
    ) -> (r: Result<SwapResult, ErrorCode>)
        ensures
            r == swap_quote(*self, config.swap_fee_rate, vaults, request, fee),
            r matches Ok(res) ==> res.protocol_fee <= res.source_amount_swapped
                && res.destination_amount_swapped <= trade_reserves(*self, vaults, request.direction).1
                && !fees_exceed_vaults(*self, vaults) && (request.mode == SwapMode::BaseInput
                ==> res.source_amount_swapped <= u64::MAX),
    {
        if self.is_launched {
            return Err(ErrorCode::DexLaunched);
        }
        match request.mode {
            SwapMode::BaseInput => {
                let actual_amount_in = request.amount.saturating_sub(fee);
                if actual_amount_in == 0 {
                    return Err(ErrorCode::InvalidInput);
                }
                if vaults.vault_0 < self.swap_fees_token_0 || vaults.vault_1 < self.swap_fees_token_1 {
                    return Err(ErrorCode::Underflow);
                }
                let (total_0, total_1) = self.vault_amount_without_fee(vaults.vault_0, vaults.vault_1);
                let (x, y) = match request.direction {
                    TradeDirection::ZeroForOne => (total_0, total_1),
                    TradeDirection::OneForZero => (total_1, total_0),
                };
                match CurveCalculator::swap_base_input(
                    actual_amount_in as u128,
                    x as u128,
                    y as u128,
                    config.swap_fee_rate,
                ) {
                    Some(res) => Ok(res),
                    None => Err(ErrorCode::ZeroTradingTokens),
                }
            },
            SwapMode::BaseOutput => {
                let actual_amount_out = match request.amount.checked_add(fee) {
                    Some(a) => a,
                    None => return Err(ErrorCode::Overflow),
                };
                if vaults.vault_0 < self.swap_fees_token_0 || vaults.vault_1 < self.swap_fees_token_1 {
                    return Err(ErrorCode::Underflow);
                }
                let (total_0, total_1) = self.vault_amount_without_fee(vaults.vault_0, vaults.vault_1);
                let (x, y) = match request.direction {
                    TradeDirection::ZeroForOne => (total_0, total_1),
                    TradeDirection::OneForZero => (total_1, total_0),
                };
                match CurveCalculator::swap_base_output(
                    actual_amount_out as u128,
                    x as u128,
                    y as u128,
                    config.swap_fee_rate,
                ) {
                    Some(res) => Ok(res),
                    None => Err(ErrorCode::ZeroTradingTokens),
                }
            },
        }
    }

    /// Runs a trade on the pool: quotes it on the curve, checks the
    /// trader's limit and the transfer fees, accrues the protocol fee on the
    /// input side and raises readiness when the bound side's balance after
    /// the transfers reaches the reserve bound. On any failure the record is
    /// left as it was.
    pub fn execute_swap(
        &mut self,
        config: &ConfigState,
        vaults: VaultBalances,
        request: SwapRequest,
        fees: TransferFees,
    ) -> (r: Result<SwapOutcome, ErrorCode>)
        ensures
            r == swap_outcome(*old(self), config.swap_fee_rate, vaults, request, fees),
            r matches Ok(o) ==> *final(self) == state_after_swap(*old(self), o),
            r is Err ==> *final(self) == *old(self),
            old(self).is_launched ==> r == Err::<SwapOutcome, ErrorCode>(ErrorCode::DexLaunched),
            old(self).wf() ==> final(self).wf(),
            r matches Ok(o) ==> final(self).swap_fees_token_0 <= o.vault_0_after
                && final(self).swap_fees_token_1 <= o.vault_1_after,
    {
        let fee = match request.mode {
            SwapMode::BaseInput => fees.input,
            SwapMode::BaseOutput => fees.output,
        };
        let res = match self.quote_swap(config, vaults, request, fee) {
            Ok(res) => res,
            Err(e) => return Err(e),
        };
        let (input_transfer_amount, into_vault, out_of_vault) = match request.mode {
            SwapMode::BaseInput => {
                let amount_out = res.destination_amount_swapped as u64;
                if fees.output > amount_out {
                    return Err(ErrorCode::Underflow);
                }
                let amount_received = amount_out - fees.output;
                if amount_received == 0 {
                    return Err(ErrorCode::InvalidInput);
                }
                if amount_received < request.limit {
                    return Err(ErrorCode::ExceededSlippage);
                }
                (request.amount, res.source_amount_swapped as u64, amount_out)
            },
            SwapMode::BaseOutput => {
                if res.source_amount_swapped > u64::MAX as u128 {
                    return Err(ErrorCode::InvalidU64Cast);
                }
                let source_amount_swapped = res.source_amount_swapped as u64;
                if source_amount_swapped == 0 {
                    return Err(ErrorCode::InvalidInput);
                }
                let input_transfer_amount = match source_amount_swapped.checked_add(fees.input) {
                    Some(a) => a,
                    None => return Err(ErrorCode::Overflow),
                };
                if request.limit < input_transfer_amount {
                    return Err(ErrorCode::ExceededSlippage);
                }
                (
                    input_transfer_amount,
                    source_amount_swapped,
                    res.destination_amount_swapped as u64,
                )
            },
        };
        let protocol_fee = res.protocol_fee as u64;
        let (input_raw, output_raw, input_fees) = match request.direction {
            TradeDirection::ZeroForOne => (vaults.vault_0, vaults.vault_1, self.swap_fees_token_0),
            TradeDirection::OneForZero => (vaults.vault_1, vaults.vault_0, self.swap_fees_token_1),
        };
        let accrued = match input_fees.checked_add(protocol_fee) {
            Some(a) => a,
            None => return Err(ErrorCode::Overflow),
        };
        let input_after = match input_raw.checked_add(into_vault) {
            Some(v) => v,
            None => return Err(ErrorCode::Overflow),
        };
        let output_after = output_raw - out_of_vault;
        let (vault_0_after, vault_1_after) = match request.direction {
            TradeDirection::ZeroForOne => (input_after, output_after),
            TradeDirection::OneForZero => (output_after, input_after),
        };
        let (total_0, total_1) = self.vault_amount_without_fee(vaults.vault_0, vaults.vault_1);
        let (input_vault_before, output_vault_before) = match request.direction {
            TradeDirection::ZeroForOne => (total_0, total_1),
            TradeDirection::OneForZero => (total_1, total_0),
        };
        let bound_amount = if self.vault_for_reserve_bound {
            vault_1_after
        } else {
            vault_0_after
        };
        let reached_reserve_bound = self.is_reached_reserve_bound(bound_amount);
        let remaining_tokens = self.get_remaining_tokens(bound_amount);
        match request.direction {
            TradeDirection::ZeroForOne => self.swap_fees_token_0 = accrued,
            TradeDirection::OneForZero => self.swap_fees_token_1 = accrued,
        }
        if reached_reserve_bound {
            self.is_ready_to_launch = true;
        }
        Ok(
            SwapOutcome {
                direction: request.direction,
                mode: request.mode,
                input_vault_before,
                output_vault_before,
                input_amount: res.source_amount_swapped as u64,
                output_amount: res.destination_amount_swapped as u64,
                input_transfer_amount,
                input_transfer_fee: fees.input,
                output_transfer_amount: out_of_vault,
                output_transfer_fee: fees.output,
                protocol_fee,
                vault_0_after,
                vault_1_after,
                remaining_tokens,
                reached_reserve_bound,
            },
        )
    }

    /// The launch tax on one side: the balance without accrued swap fees
    /// times the launch fee rate, rounded down.
    pub fn get_launch_tax(amount: u64, swap_fees: u64, launch_fee_rate: u64) -> (r: Result<
        u64,
        ErrorCode,
    >)
        ensures
            r == (if amount < swap_fees {
                Err(ErrorCode::Underflow)
            } else if fee_of(amount - swap_fees, launch_fee_rate as int) > u64::MAX {
                Err(ErrorCode::InvalidU64Cast)
            } else {
                Ok(fee_of(amount - swap_fees, launch_fee_rate as int) as u64)
            }),
    {
        let clean = match amount.checked_sub(swap_fees) {
            Some(c) => c,
            None => return Err(ErrorCode::Underflow),
        };
        proof {
            assert(clean * launch_fee_rate <= u128::MAX) by (nonlinear_arith)
                requires
                    clean <= u64::MAX,
                    launch_fee_rate <= u64::MAX,
            ;
        }
        let launch_tax = match Fees::protocol_fee(clean as u128, launch_fee_rate) {
            Some(t) => t,
            None => return Err(ErrorCode::Overflow),
        };
        if launch_tax > u64::MAX as u128 {
            return Err(ErrorCode::InvalidU64Cast);
        }
        Ok(launch_tax as u64)
    }

    /// The amount one side hands to the permanent pool before the token's
    /// transfer fee: the balance without accrued swap fees, less the launch
    /// tax. The launch's transfer fee is the one charged on this amount.
    pub fn get_launch_hand_off(amount: u64, swap_fees: u64, launch_fee_rate: u64) -> (r: Result<
        u64,
        ErrorCode,
    >)
        ensures
            r == (match taxed_amount(amount, swap_fees, launch_fee_rate, 0) {
                Ok((hand_off, _, _)) => Ok(hand_off),
                Err(e) => Err(e),
            }),
    {
        match get_taxed_amount_before_launch(amount, swap_fees, launch_fee_rate, 0) {
            Ok((hand_off, _, _)) => Ok(hand_off),
            Err(e) => Err(e),
        }
    }

    /// Launches the pool: each side's balance without accrued swap fees,
    /// less the launch tax and the transfer fee of the hand-off, goes to the
    /// permanent pool; the swap fees and the taxes stay owed to the
    /// protocol. Allowed once, and only when ready; on any failure the
    /// record is left as it was.
    pub fn launch_dex(
        &mut self,
        config: &ConfigState,
        vaults: VaultBalances,
        transfer_fee_0: u64,
        transfer_fee_1: u64,
    ) -> (r: Result<LaunchPlan, ErrorCode>)
        ensures
            r == launch_outcome(
                *old(self),
                config.launch_fee_rate,
                vaults,
                transfer_fee_0,
                transfer_fee_1,
            ),
            r matches Ok(p) ==> *final(self) == state_after_launch(*old(self), p),
            r is Err ==> *final(self) == *old(self),
            old(self).wf() ==> final(self).wf(),
            r matches Ok(p) ==> final(self).launch_fees_token_0 <= vaults.vault_0 - p.amount_0
                && final(self).launch_fees_token_1 <= vaults.vault_1 - p.amount_1,
    {
        if !self.is_ready_to_launch {
            return Err(ErrorCode::DexNotReadyToLaunch);
        }
        if self.is_launched {
            return Err(ErrorCode::DexLaunched);
        }
        let (amount_0, launch_tax_0, fee_0) = match get_taxed_amount_before_launch(
            vaults.vault_0,
            self.swap_fees_token_0,
            config.launch_fee_rate,
            transfer_fee_0,
        ) {
            Ok(t) => t,
            Err(e) => return Err(e),
        };
        let (amount_1, launch_tax_1, fee_1) = match get_taxed_amount_before_launch(
            vaults.vault_1,
            self.swap_fees_token_1,
            config.launch_fee_rate,
            transfer_fee_1,
        ) {
            Ok(t) => t,
            Err(e) => return Err(e),
        };
        let launch_fees_0 = match self.swap_fees_token_0.checked_add(launch_tax_0) {
            Some(f) => f,
            None => return Err(ErrorCode::Overflow),
        };
        let launch_fees_1 = match self.swap_fees_token_1.checked_add(launch_tax_1) {
            Some(f) => f,
            None => return Err(ErrorCode::Overflow),
        };
        self.launch_fees_token_0 = launch_fees_0;
        self.launch_fees_token_1 = launch_fees_1;
        self.swap_fees_token_0 = 0;
        self.swap_fees_token_1 = 0;
        self.is_launched = true;
        Ok(
            LaunchPlan {
                amount_0,
                amount_1,
                launch_tax_0,
                launch_tax_1,
                transfer_fee_0: fee_0,
                transfer_fee_1: fee_1,
                launch_fees_0,
                launch_fees_1,
            },
        )
    }

    /// Pays out everything owed to the protocol: the accrued swap fees, and
    /// once launched what the launch left owed. Returns the amounts per side.
    pub fn withdraw_dex_fee(&mut self) -> (r: Result<(u64, u64), ErrorCode>)
        ensures
            r == withdraw_outcome(*old(self)),
            r is Ok ==> *final(self) == state_after_withdraw(*old(self)),
            r is Err ==> *final(self) == *old(self),
            old(self).wf() ==> final(self).wf(),
    {
        let mut amount_0 = self.swap_fees_token_0;
        let mut amount_1 = self.swap_fees_token_1;
        if self.is_launched {
            amount_0 = match amount_0.checked_add(self.launch_fees_token_0) {
                Some(a) => a,
                None => return Err(ErrorCode::Overflow),
            };
            amount_1 = match amount_1.checked_add(self.launch_fees_token_1) {
                Some(a) => a,
                None => return Err(ErrorCode::Overflow),
            };
            self.launch_fees_token_0 = 0;
            self.launch_fees_token_1 = 0;
        }
        self.swap_fees_token_0 = 0;
        self.swap_fees_token_1 = 0;
        Ok((amount_0, amount_1))
    }
}

/// One side of a launch: `amount` without `swap_fees`, less the launch tax
/// at `launch_fee_rate`, less `transfer_fee`. Returns (hand-off, tax,
/// transfer fee).
pub fn get_taxed_amount_before_launch(
    amount: u64,
    swap_fees: u64,
    launch_fee_rate: u64,
    transfer_fee: u64,
) -> (r: Result<(u64, u64, u64), ErrorCode>)
    ensures
        r == taxed_amount(amount, swap_fees, launch_fee_rate, transfer_fee),
{
    let launch_tax = match DexState::get_launch_tax(amount, swap_fees, launch_fee_rate) {
        Ok(t) => t,
        Err(e) => return Err(e),
    };
    let clean = amount - swap_fees;
    let after_tax = match clean.checked_sub(launch_tax) {
        Some(a) => a,
        None => return Err(ErrorCode::Underflow),
    };
    let handed_off = match after_tax.checked_sub(transfer_fee) {
        Some(a) => a,
        None => return Err(ErrorCode::Underflow),
    };
    Ok((handed_off, launch_tax, transfer_fee))
}

/// A launched pool refuses every trade, whatever is asked.
pub proof fn lemma_launched_pool_refuses_swaps(
    s: DexState,
    rate: u64,
    vaults: VaultBalances,
    request: SwapRequest,
    fees: TransferFees,
)
    requires
        s.is_launched,
    ensures
        swap_outcome(s, rate, vaults, request, fees) == Err::<SwapOutcome, ErrorCode>(
            ErrorCode::DexLaunched,
        ),
{
}

/// No operation takes a pool back: trades and withdrawals keep the launch
/// flag and never lower readiness, and a launch sets the flag.
pub proof fn lemma_phase_is_monotone(
    s: DexState,
    rate: u64,
    vaults: VaultBalances,
    request: SwapRequest,
    fees: TransferFees,
    transfer_fee_0: u64,
    transfer_fee_1: u64,
)
    ensures
        swap_outcome(s, rate, vaults, request, fees) matches Ok(o) ==> state_after_swap(
            s,
            o,
        ).is_launched == s.is_launched && (s.is_ready_to_launch ==> state_after_swap(
            s,
            o,
        ).is_ready_to_launch),
        launch_outcome(s, rate, vaults, transfer_fee_0, transfer_fee_1) matches Ok(p)
            ==> state_after_launch(s, p).is_launched && state_after_launch(
            s,
            p,
        ).is_ready_to_launch,
        state_after_withdraw(s).is_launched == s.is_launched,
        state_after_withdraw(s).is_ready_to_launch == s.is_ready_to_launch,
{
}

/// A successful launch is the last one: afterwards every further launch
/// fails with the already-launched error, as does every trade.
pub proof fn lemma_launch_only_once(
    s: DexState,
    rate: u64,
    vaults: VaultBalances,
    transfer_fee_0: u64,
    transfer_fee_1: u64,
    next_rate: u64,
    next_vaults: VaultBalances,
    next_fee_0: u64,
    next_fee_1: u64,
    request: SwapRequest,
    fees: TransferFees,
)
    requires
        launch_outcome(s, rate, vaults, transfer_fee_0, transfer_fee_1) is Ok,
    ensures
        ({
            let after = state_after_launch(
                s,
                launch_outcome(s, rate, vaults, transfer_fee_0, transfer_fee_1).unwrap(),
            );
            &&& launch_outcome(after, next_rate, next_vaults, next_fee_0, next_fee_1) == Err::<
                LaunchPlan,
                ErrorCode,
            >(ErrorCode::DexLaunched)
            &&& swap_outcome(after, next_rate, next_vaults, request, fees) == Err::<
                SwapOutcome,
                ErrorCode,
            >(ErrorCode::DexLaunched)
        }),
{
}

/// Every operation keeps a well-formed pool well-formed.
pub proof fn lemma_operations_preserve_wf(
    s: DexState,
    rate: u64,
    vaults: VaultBalances,
    request: SwapRequest,
    fees: TransferFees,
    transfer_fee_0: u64,
    transfer_fee_1: u64,
)
    requires
        s.wf(),
    ensures
        swap_outcome(s, rate, vaults, request, fees) matches Ok(o) ==> state_after_swap(
            s,
            o,
        ).wf(),
        launch_outcome(s, rate, vaults, transfer_fee_0, transfer_fee_1) matches Ok(p)
            ==> state_after_launch(s, p).wf(),
        withdraw_outcome(s) is Ok ==> state_after_withdraw(s).wf(),
{
}

} // verus!
