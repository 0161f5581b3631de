//! Bonding-curve liquidity pool: fee arithmetic, constant-product curve,
//! the trading-to-launch state machine of a pool, and the claim records of
//! the companion token faucet.

pub mod error;
pub mod address;
pub mod fees;
pub mod constant_product;
pub mod calculator;
pub mod config;
pub mod dex;
pub mod swap;
pub mod faucet;
