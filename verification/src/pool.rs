use vstd::prelude::*;

use crate::config::Config;

verus! {

/// One pool as seen by the engines: its configuration together with the
/// reserve and claim-token-supply state read from the host at the start
/// of the current atomic operation.
///
/// The balances are owned by the hosting execution layer, not by this
/// engine; a `Pool` value is the engine's faithful snapshot of them.
/// Each operation either succeeds and updates the snapshot exactly as
/// the settlement it prescribes would update the real balances, or
/// fails and leaves the snapshot untouched — all-or-nothing, matching
/// the atomicity the host provides.
pub struct Pool {
    /// The pool's validated configuration record.
    pub config: Config,
    /// Current balance of asset X held by the pool.
    pub reserve_x: u64,
    /// Current balance of asset Y held by the pool.
    pub reserve_y: u64,
    /// Total outstanding supply of the liquidity-claim token.
    pub lp_supply: u64,
}

impl Pool {
    /// Everything the engines rely on: the configuration invariant.
    pub open spec fn wf(self) -> bool {
        self.config.wf()
    }

    /// The reserve of the asset the caller supplies in a swap.
    pub open spec fn reserve_in(self, is_x: bool) -> int {
        if is_x {
            self.reserve_x as int
        } else {
            self.reserve_y as int
        }
    }

    /// The reserve of the asset the caller receives in a swap.
    pub open spec fn reserve_out(self, is_x: bool) -> int {
        if is_x {
            self.reserve_y as int
        } else {
            self.reserve_x as int
        }
    }
}

} // verus!
