//! A verified two-asset automated market-making (AMM) pool engine,
//! with the verified decision rules of its sibling programs.
//!
//! The pool prices trades with a constant-product rule and redeems
//! liquidity claims proportionally, with fee extraction, overflow-checked
//! arithmetic and slippage bounds.  Settlement (moving balances between
//! accounts) is left to a host: the engine computes amounts, validates
//! every precondition, and describes the state transition; the host
//! applies it atomically.  The `dice`, `funding`, `staking` and
//! `whitelist` modules carry the same split for the smaller programs
//! that live beside the pool: their bookkeeping rules are verified
//! here, while account plumbing stays with the host.

pub mod config;
pub mod curve;
pub mod dice;
pub mod errors;
pub mod funding;
pub mod pool;
pub mod staking;
pub mod swap;
pub mod whitelist;
pub mod withdraw;
