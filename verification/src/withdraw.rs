use vstd::prelude::*;

use crate::curve::{lemma_share_le_reserve, proportional_amounts, spec_share};
use crate::errors::AmmError;
use crate::pool::Pool;

verus! {

impl Pool {
    /// Redeems `amount` liquidity-claim tokens for a proportional share
    /// of both reserves, paying out at least `min_x` of asset X and
    /// `min_y` of asset Y or failing.
    ///
    /// `user_lp` is the caller's claim-token balance as read at the
    /// start of the operation; the host burns the `amount` claim
    /// tokens as part of the settlement this transition prescribes.
    /// On any failure the pool is left exactly as it was.
    pub fn withdraw(&mut self, user_lp: u64, amount: u64, min_x: u64, min_y: u64) -> (r: Result<
        (u64, u64),
        AmmError,
    >)
        requires
            old(self).wf(),
        ensures
            final(self).wf(),
            ({
                let pre = *old(self);
                let share_x = spec_share(pre.reserve_x as int, amount as int, pre.lp_supply as int);
                let share_y = spec_share(pre.reserve_y as int, amount as int, pre.lp_supply as int);
                let guards_pass = !pre.config.locked && amount != 0 && amount <= pre.lp_supply
                    && amount <= user_lp;
                &&& (r == Err::<(u64, u64), AmmError>(AmmError::PoolLocked) <==> pre.config.locked)
                &&& (r == Err::<(u64, u64), AmmError>(AmmError::InvalidAmount) <==> !pre.config.locked
                    && amount == 0)
                &&& (r == Err::<(u64, u64), AmmError>(AmmError::NoLiquidityInPool)
                    <==> !pre.config.locked && amount != 0 && pre.lp_supply == 0)
                &&& (r == Err::<(u64, u64), AmmError>(AmmError::LiquidityLessThanMinimum)
                    <==> !pre.config.locked && amount != 0 && 0 < pre.lp_supply < amount)
                &&& (r == Err::<(u64, u64), AmmError>(AmmError::InsufficientBalance)
                    <==> !pre.config.locked && amount != 0 && amount <= pre.lp_supply && user_lp
                    < amount)
                &&& (r == Err::<(u64, u64), AmmError>(AmmError::SlippageExceeded) <==> guards_pass
                    && (share_x < min_x || share_y < min_y))
                &&& (r is Ok <==> guards_pass && share_x >= min_x && share_y >= min_y)
                &&& (r matches Ok(paid) ==> {
                    &&& paid.0 == share_x
                    &&& paid.1 == share_y
                    &&& final(self).config == pre.config
                    &&& final(self).reserve_x == pre.reserve_x - share_x
                    &&& final(self).reserve_y == pre.reserve_y - share_y
                    &&& final(self).lp_supply == pre.lp_supply - amount
                })
                &&& (r is Err ==> *final(self) == pre)
            }),
    {
        if self.config.locked {
            return Err(AmmError::PoolLocked);
        }
        if amount == 0 {
            return Err(AmmError::InvalidAmount);
        }
        if self.lp_supply == 0 {
            return Err(AmmError::NoLiquidityInPool);
        }
        if self.lp_supply < amount {
            return Err(AmmError::LiquidityLessThanMinimum);
        }
        if user_lp < amount {
            return Err(AmmError::InsufficientBalance);
        }
        proof {
            lemma_share_le_reserve(self.reserve_x as int, amount as int, self.lp_supply as int);
            lemma_share_le_reserve(self.reserve_y as int, amount as int, self.lp_supply as int);
        }
        let (amount_x, amount_y) = match proportional_amounts(
            self.reserve_x,
            self.reserve_y,
            self.lp_supply,
            amount,
        ) {
            Ok(v) => v,
            Err(e) => { return Err(e) },
        };
        if amount_x < min_x || amount_y < min_y {
            return Err(AmmError::SlippageExceeded);
        }
        self.reserve_x = self.reserve_x - amount_x;
        self.reserve_y = self.reserve_y - amount_y;
        self.lp_supply = self.lp_supply - amount;
        Ok((amount_x, amount_y))
    }
}

} // verus!
