//! The administrator's settings shared by every pool.

use vstd::prelude::*;
use crate::fees::{FEE_RATE_DENOMINATOR_VALUE, MAX_FEE_RATE_VALUE};

verus! {

/// Swap fee rate of a fresh configuration (1%).
pub const DEFAULT_SWAP_FEE_RATE: u64 = 10_000;

/// Launch fee rate of a fresh configuration (1%).
pub const DEFAULT_LAUNCH_FEE_RATE: u64 = 10_000;

/// Reserve a fresh configuration deposits on the bound side's partner.
pub const DEFAULT_INITIAL_RESERVE: u64 = 2_000_000_000;

/// Reserve bound of a fresh configuration.
pub const DEFAULT_VAULT_RESERVE_BOUND: u64 = 205_000_000_000_000_000;

/// Fee rates and reserve settings read by every pool operation.
#[derive(Clone, Copy, Debug, Default, PartialEq, Eq, Structural)]
pub struct ConfigState {
    pub bump: u8,
    /// Rate of the protocol fee taken from each trade's input.
    pub swap_fee_rate: u64,
    /// Rate of the tax taken from each side when a pool launches.
    pub launch_fee_rate: u64,
    /// Amount deposited on the side opposite the creator's tokens.
    pub initial_reserve: u64,
    /// Vault balance at which a pool becomes ready to launch.
    pub vault_reserve_bound: u64,
}

impl ConfigState {
    /// Both rates within the maximum, and together within the denominator.
    pub open spec fn wf(&self) -> bool {
        &&& self.swap_fee_rate <= MAX_FEE_RATE_VALUE
        &&& self.launch_fee_rate <= MAX_FEE_RATE_VALUE
        &&& self.swap_fee_rate + self.launch_fee_rate <= FEE_RATE_DENOMINATOR_VALUE
    }

    /// A configuration with the default rates and reserves.
    pub fn initialize_config(bump: u8) -> (r: ConfigState)
        ensures
            r.wf(),
            r == (ConfigState {
                bump,
                swap_fee_rate: DEFAULT_SWAP_FEE_RATE,
                launch_fee_rate: DEFAULT_LAUNCH_FEE_RATE,
                initial_reserve: DEFAULT_INITIAL_RESERVE,
                vault_reserve_bound: DEFAULT_VAULT_RESERVE_BOUND,
            }),
    {
        ConfigState {
            bump,
            swap_fee_rate: DEFAULT_SWAP_FEE_RATE,
            launch_fee_rate: DEFAULT_LAUNCH_FEE_RATE,
            initial_reserve: DEFAULT_INITIAL_RESERVE,
            vault_reserve_bound: DEFAULT_VAULT_RESERVE_BOUND,
        }
    }

    /// Sets the swap fee rate; returns the previous one.
    pub fn update_swap_fee_rate(&mut self, swap_fee_rate: u64) -> (r: u64)
        requires
            old(self).wf(),
            swap_fee_rate <= MAX_FEE_RATE_VALUE,
        ensures
            r == old(self).swap_fee_rate,
            *final(self) == (ConfigState { swap_fee_rate, ..*old(self) }),
            final(self).wf(),
    {
        let previous = self.swap_fee_rate;
        self.swap_fee_rate = swap_fee_rate;
        previous
    }

    /// Sets the launch fee rate; returns the previous one.
    pub fn update_launch_fee_rate(&mut self, launch_fee_rate: u64) -> (r: u64)
        requires
            old(self).wf(),
            launch_fee_rate <= MAX_FEE_RATE_VALUE,
        ensures
            r == old(self).launch_fee_rate,
            *final(self) == (ConfigState { launch_fee_rate, ..*old(self) }),
            final(self).wf(),
    {
        let previous = self.launch_fee_rate;
        self.launch_fee_rate = launch_fee_rate;
        previous
    }

    /// Sets the reserve bound given to new pools; returns the previous one.
    pub fn update_vault_reserve_bound(&mut self, vault_reserve_bound: u64) -> (r: u64)
        ensures
            r == old(self).vault_reserve_bound,
            *final(self) == (ConfigState { vault_reserve_bound, ..*old(self) }),
    {
        let previous = self.vault_reserve_bound;
        self.vault_reserve_bound = vault_reserve_bound;
        previous
    }

    /// Sets the initial reserve given to new pools; returns the previous one.
    pub fn update_initial_reserve(&mut self, initial_reserve: u64) -> (r: u64)
        ensures
            r == old(self).initial_reserve,
            *final(self) == (ConfigState { initial_reserve, ..*old(self) }),
    {
        let previous = self.initial_reserve;
        self.initial_reserve = initial_reserve;
        previous
    }
}

} // verus!
