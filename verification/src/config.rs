use vstd::prelude::*;

verus! {

/// The fee denominator: fee rates are expressed in basis points,
/// 1 bps = 0.01%, so a rate of 10000 would take the whole amount.
pub const FEE_DENOMINATOR: u64 = 10000;

/// The persistent configuration of one pool.
///
/// External principals and asset types are identified by opaque 64-bit
/// handles assigned by the hosting execution layer; the engine only ever
/// compares them for equality.  The derivation bumps are the public
/// parameters from which the host reproduces the pool's delegated
/// signing authority over its reserve and claim-token sub-accounts.
#[derive(Clone, Copy)]
pub struct Config {
    /// Distinguishes pools created by the same deployer; part of the
    /// pool's deterministic identity.
    pub seed: u64,
    /// The principal permitted to lock and unlock the pool, if any.
    pub authority: Option<u64>,
    /// Identifier of reserve asset X; fixed for the pool's lifetime.
    pub mint_x: u64,
    /// Identifier of reserve asset Y; fixed for the pool's lifetime.
    pub mint_y: u64,
    /// Swap fee in basis points; always below `FEE_DENOMINATOR`.
    pub fee: u16,
    /// While set, swaps and withdrawals are rejected.
    pub locked: bool,
    /// Derivation parameter for the pool's configuration account.
    pub config_bump: u8,
    /// Derivation parameter for the liquidity-claim token.
    pub lp_bump: u8,
}

impl Config {
    /// The configuration invariant both engines rely on: the fee rate
    /// never reaches 100%.
    pub open spec fn wf(self) -> bool {
        self.fee < 10000
    }

    /// Builds a configuration with the lock flag clear.
    pub fn new(
        seed: u64,
        authority: Option<u64>,
        mint_x: u64,
        mint_y: u64,
        fee: u16,
        config_bump: u8,
        lp_bump: u8,
    ) -> (c: Config)
        requires
            fee < 10000,
        ensures
            c.wf(),
            c.seed == seed,
            c.authority == authority,
            c.mint_x == mint_x,
            c.mint_y == mint_y,
            c.fee == fee,
            !c.locked,
            c.config_bump == config_bump,
            c.lp_bump == lp_bump,
    {
        Config { seed, authority, mint_x, mint_y, fee, locked: false, config_bump, lp_bump }
    }

    /// Sets or clears the lock flag.  Only the configured authority may
    /// toggle it; a pool without an authority has no privileged
    /// lock-holder and stays as it is.  Returns whether the flag was
    /// written.
    pub fn set_locked(&mut self, caller: u64, locked: bool) -> (ok: bool)
        ensures
            ok <==> old(self).authority == Some(caller),
            ok ==> *final(self) == (Config { locked, ..*old(self) }),
            !ok ==> *final(self) == *old(self),
    {
        match self.authority {
            Some(a) => {
                if a == caller {
                    self.locked = locked;
                    true
                } else {
                    false
                }
            },
            None => false,
        }
    }
}

} // verus!
