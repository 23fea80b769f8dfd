use vstd::prelude::*;

verus! {

/// Failure modes of pool operations.  Every check made by the engines is
/// local and terminal: the first failing precondition aborts the whole
/// operation with one of these values and no partial effect.
#[derive(Clone, Copy, Debug, PartialEq, Eq, Structural)]
pub enum AmmError {
    /// The pool's lock flag is set.
    PoolLocked,
    /// A caller-supplied amount argument is zero.
    InvalidAmount,
    /// A checked arithmetic step overflowed its numeric range.
    Overflow,
    /// The computed output or payout is below the caller's minimum bound.
    SlippageExceeded,
    /// A withdrawal was attempted while the claim-token supply is zero.
    NoLiquidityInPool,
    /// The burn amount exceeds the outstanding claim-token supply.
    LiquidityLessThanMinimum,
    /// The caller's claim-token balance is below the requested burn amount.
    InsufficientBalance,
    /// The proportional-redemption computation failed or degenerated.
    CurveError,
}

} // verus!
