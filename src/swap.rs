//! Trades addressed by vault accounts, as a trader names them.

use vstd::prelude::*;
use crate::address::Address;
use crate::calculator::TradeDirection;
use crate::config::ConfigState;
use crate::dex::{
    DexState, SwapCalculation, SwapMode, SwapOutcome, SwapRequest, TransferFees, VaultBalances,
    in_out, swap_outcome, swap_quote,
};
use crate::calculator::SwapResult;
use crate::error::ErrorCode;

verus! {

/// What a trade reads besides the pool record: the configuration and the
/// two vaults it names, with their raw balances.
#[derive(Clone, Copy, Debug, PartialEq, Eq)]
pub struct Swapper {
    pub config: ConfigState,
    pub input_vault: Address,
    pub input_vault_amount: u64,
    pub output_vault: Address,
    pub output_vault_amount: u64,
}

/// The direction the named vaults give on pool `s`, if any.
pub open spec fn named_direction(s: DexState, input_vault: Address, output_vault: Address) -> Option<
    TradeDirection,
> {
    if input_vault.bytes@ == s.token_0_vault.bytes@ && output_vault.bytes@ == s.token_1_vault.bytes@ {
        Some(TradeDirection::ZeroForOne)
    } else if input_vault.bytes@ == s.token_1_vault.bytes@ && output_vault.bytes@
        == s.token_0_vault.bytes@ {
        Some(TradeDirection::OneForZero)
    } else {
        None
    }
}

impl Swapper {
    /// The vault balances ordered as (vault 0, vault 1) for `direction`.
    pub open spec fn balances(&self, direction: TradeDirection) -> VaultBalances {
        let (v0, v1) = in_out(
            direction,
            self.input_vault_amount as int,
            self.output_vault_amount as int,
        );
        VaultBalances { vault_0: v0 as u64, vault_1: v1 as u64 }
    }

    /// What a trade of `mode` on `dex_state` yields once the vaults are
    /// resolved: refused when the pool is launched or the vaults are not the
    /// pool's.
    pub open spec fn outcome(
        &self,
        dex_state: DexState,
        mode: SwapMode,
        amount: u64,
        limit: u64,
        fees: TransferFees,
    ) -> Result<SwapOutcome, ErrorCode> {
        if dex_state.is_launched {
            Err(ErrorCode::DexLaunched)
        } else {
            match named_direction(dex_state, self.input_vault, self.output_vault) {
                None => Err(ErrorCode::InvalidVault),
                Some(direction) => swap_outcome(
                    dex_state,
                    self.config.swap_fee_rate,
                    self.balances(direction),
                    SwapRequest { direction, mode, amount, limit },
                    fees,
                ),
            }
        }
    }

    fn resolve(&self, dex_state: &DexState) -> (r: Result<(TradeDirection, VaultBalances), ErrorCode>)
        ensures
            r == (match named_direction(*dex_state, self.input_vault, self.output_vault) {
                None => Err(ErrorCode::InvalidVault),
                Some(direction) => Ok((direction, self.balances(direction))),
            }),
    {
        let direction = match dex_state.trade_direction(&self.input_vault, &self.output_vault) {
            Ok(d) => d,
            Err(e) => return Err(e),
        };
        let vaults = match direction {
            TradeDirection::ZeroForOne => VaultBalances {
                vault_0: self.input_vault_amount,
                vault_1: self.output_vault_amount,
            },
            TradeDirection::OneForZero => VaultBalances {
                vault_0: self.output_vault_amount,
                vault_1: self.input_vault_amount,
            },
        };
        Ok((direction, vaults))
    }

    /// Direction, fee-excluded reserves and spot prices of the trade the
    /// vaults name. Refused when the vaults are not the pool's, when a vault
    /// holds less than its accrued fees, and when a reserve is empty.
    pub fn calculate_trade_amounts_and_price_before_swap(&self, dex_state: &DexState) -> (r: Result<
        SwapCalculation,
        ErrorCode,
    >)
        ensures
            r matches Err(e) ==> (e == ErrorCode::InvalidVault || e == ErrorCode::Underflow || e
                == ErrorCode::DivZero),
            named_direction(*dex_state, self.input_vault, self.output_vault) is None ==> r
                == Err::<SwapCalculation, ErrorCode>(ErrorCode::InvalidVault),
            named_direction(*dex_state, self.input_vault, self.output_vault) matches Some(d) ==> ({
                let v = self.balances(d);
                let e0 = v.vault_0 - dex_state.swap_fees_token_0;
                let e1 = v.vault_1 - dex_state.swap_fees_token_1;
                if e0 < 0 || e1 < 0 {
                    r == Err::<SwapCalculation, ErrorCode>(ErrorCode::Underflow)
                } else if e0 == 0 || e1 == 0 {
                    r == Err::<SwapCalculation, ErrorCode>(ErrorCode::DivZero)
                } else {
                    r matches Ok(c) && c.trade_direction == d && c.total_input_token_amount == in_out(
                        d,
                        e0,
                        e1,
                    ).0 && c.total_output_token_amount == in_out(d, e0, e1).1
                        && c.token_0_price_x64 == e1 * crate::dex::Q32 / e0 && c.token_1_price_x64
                        == e0 * crate::dex::Q32 / e1
                }
            }),
    {
        let (direction, vaults) = match self.resolve(dex_state) {
            Ok(r) => r,
            Err(e) => return Err(e),
        };
        if vaults.vault_0 < dex_state.swap_fees_token_0 || vaults.vault_1 < dex_state.swap_fees_token_1 {
            return Err(ErrorCode::Underflow);
        }
        if vaults.vault_0 == dex_state.swap_fees_token_0 || vaults.vault_1 == dex_state.swap_fees_token_1 {
            return Err(ErrorCode::DivZero);
        }
        let (total_0, total_1) = dex_state.vault_amount_without_fee(vaults.vault_0, vaults.vault_1);
        let (token_0_price_x64, token_1_price_x64) = dex_state.token_price_x32(
            vaults.vault_0,
            vaults.vault_1,
        );
        let (total_input_token_amount, total_output_token_amount) = match direction {
            TradeDirection::ZeroForOne => (total_0, total_1),
            TradeDirection::OneForZero => (total_1, total_0),
        };
        Ok(
            SwapCalculation {
                trade_direction: direction,
                total_input_token_amount,
                total_output_token_amount,
                token_0_price_x64,
                token_1_price_x64,
            },
        )
    }

    /// The curve's answer to a trade of `mode` on `dex_state`, given the
    /// transfer fee known before the curve runs. Changes nothing; it tells
    /// the caller the amount whose transfer fee the trade then needs.
    pub fn quote(&self, dex_state: &DexState, mode: SwapMode, amount: u64, fee: u64) -> (r: Result<
        SwapResult,
        ErrorCode,
    >)
        ensures
            r == (if dex_state.is_launched {
                Err(ErrorCode::DexLaunched)
            } else {
                match named_direction(*dex_state, self.input_vault, self.output_vault) {
                    None => Err(ErrorCode::InvalidVault),
                    Some(direction) => swap_quote(
                        *dex_state,
                        self.config.swap_fee_rate,
                        self.balances(direction),
                        SwapRequest { direction, mode, amount, limit: 0 },
                        fee,
                    ),
                }
            }),
    {
        if dex_state.is_launched {
            return Err(ErrorCode::DexLaunched);
        }
        let (direction, vaults) = match self.resolve(dex_state) {
            Ok(r) => r,
            Err(e) => return Err(e),
        };
        dex_state.quote_swap(&self.config, vaults, SwapRequest { direction, mode, amount, limit: 0 }, fee)
    }

    /// An exact-input trade of `amount_in`, receiving at least
    /// `minimum_amount_out` net of the output's transfer fee.
    pub fn try_swap_base_input(
        &self,
        dex_state: &mut DexState,
        amount_in: u64,
        minimum_amount_out: u64,
        fees: TransferFees,
    ) -> (r: Result<SwapOutcome, ErrorCode>)
        ensures
            r == self.outcome(*old(dex_state), SwapMode::BaseInput, amount_in, minimum_amount_out, fees),
            r matches Ok(o) ==> *final(dex_state) == crate::dex::state_after_swap(*old(dex_state), o),
            r is Err ==> *final(dex_state) == *old(dex_state),
    {
        self.try_swap(dex_state, SwapMode::BaseInput, amount_in, minimum_amount_out, fees)
    }

    /// An exact-output trade receiving `amount_out_less_fee` net of the
    /// output's transfer fee, sending at most `max_amount_in`.
    pub fn try_swap_base_output(
        &self,
        dex_state: &mut DexState,
        max_amount_in: u64,
        amount_out_less_fee: u64,
        fees: TransferFees,
    ) -> (r: Result<SwapOutcome, ErrorCode>)
        ensures
            r == self.outcome(*old(dex_state), SwapMode::BaseOutput, amount_out_less_fee, max_amount_in, fees),
            r matches Ok(o) ==> *final(dex_state) == crate::dex::state_after_swap(*old(dex_state), o),
            r is Err ==> *final(dex_state) == *old(dex_state),
    {
        self.try_swap(dex_state, SwapMode::BaseOutput, amount_out_less_fee, max_amount_in, fees)
    }

    fn try_swap(
        &self,
        dex_state: &mut DexState,
        mode: SwapMode,
        amount: u64,
        limit: u64,
        fees: TransferFees,
    ) -> (r: Result<SwapOutcome, ErrorCode>)
        ensures
            r == self.outcome(*old(dex_state), mode, amount, limit, fees),
            r matches Ok(o) ==> *final(dex_state) == crate::dex::state_after_swap(*old(dex_state), o),
            r is Err ==> *final(dex_state) == *old(dex_state),
    {
        if dex_state.is_launched {
            return Err(ErrorCode::DexLaunched);
        }
        let (direction, vaults) = match self.resolve(dex_state) {
            Ok(r) => r,
            Err(e) => return Err(e),
        };
        let request = SwapRequest { direction, mode, amount, limit };
        dex_state.execute_swap(&self.config, vaults, request, fees)
    }
}

} // verus!
