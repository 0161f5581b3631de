//! Failures reported by the pool.

use vstd::prelude::*;

verus! {

/// Every way in which an operation on a pool can be refused.
#[derive(Clone, Copy, Debug, PartialEq, Eq, Structural)]
pub enum ErrorCode {
    /// The caller is not approved for this operation.
    NotApproved,
    /// The caller is not the administrator.
    InvalidAdmin,
    /// The caller is not the authority allowed to create pools.
    InvalidCpiAuthority,
    /// A pool side holds no tokens.
    EmptySupply,
    /// An amount that must be positive is zero.
    InvalidInput,
    /// The trade falls outside the caller's slippage limit.
    ExceededSlippage,
    /// The curve produced no result for this trade.
    ZeroTradingTokens,
    /// The token's mint uses an extension the pool does not support.
    NotSupportMint,
    /// The vault accounts do not belong to the pool.
    InvalidVault,
    /// A value does not fit in a `u64`.
    InvalidU64Cast,
    /// A checked addition or multiplication overflowed.
    Overflow,
    /// A checked subtraction went below zero.
    Underflow,
    /// A division by zero.
    DivZero,
    /// The pool has already been launched.
    DexLaunched,
    /// The pool is ready to launch and takes no further trades.
    DexReadyToLaunch,
    /// The pool has not reached its reserve bound.
    DexNotReadyToLaunch,
}

} // verus!
