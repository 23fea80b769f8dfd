use vstd::prelude::*;

verus! {

/// Seconds per day: staking rewards accrue per whole day staked.
pub const SECONDS_PER_DAY: u32 = 86400;

/// Failure modes of the staking rules.
#[derive(Clone, Copy, Debug, PartialEq, Eq, Structural)]
pub enum StakeError {
    /// The user already has the maximum number of assets staked.
    MaxStakeReached,
    /// The freeze period has not passed yet.
    FreezePeriodNotPassed,
    /// The asset is invalid.
    InvalidAsset,
    /// The asset is not initialized.
    AssetNotInitialized,
    /// The collection is invalid.
    InvalidCollection,
    /// The collection is not initialized.
    CollectionNotInitialized,
    /// The collection has already been initialized.
    CollectionAlreadyInitialized,
    /// The asset has already been initialized.
    AssetAlreadyInitialized,
    /// The caller does not own the staked asset.
    NotOwner,
}

/// Program-wide staking parameters.
pub struct StakeConfig {
    /// Points earned per staked asset per whole day.
    pub points_per_stake: u8,
    /// The maximum number of assets one user may have staked at once.
    pub max_stake: u8,
    /// Seconds an asset stays frozen after being staked.
    pub freeze_period: u32,
    /// Derivation parameter for the reward token.
    pub rewards_bump: u8,
    /// Derivation parameter for the configuration account.
    pub bump: u8,
}

/// One user's staking position.
pub struct UserAccount {
    /// How many assets the user has staked at the moment.
    pub amount_staked: u8,
    /// Reward points accrued and not yet claimed.
    pub points: u32,
    /// Derivation parameter for the user's account.
    pub bump: u8,
}

/// The record created when one asset is staked.
pub struct StakeAccount {
    /// The principal that staked the asset.
    pub owner: u64,
    /// The staked asset.
    pub mint: u64,
    /// Unix timestamp of the moment of staking.
    pub staked_at: i64,
    /// Derivation parameter for the record's account.
    pub bump: u8,
}

/// The reward points earned by one asset staked from `staked_at` to
/// `now`: one batch of `points_per_stake` for each whole day.
pub open spec fn spec_points_earned(staked_at: int, now: int, points_per_stake: int) -> int {
    (now - staked_at) / (SECONDS_PER_DAY as int) * points_per_stake
}

/// Stakes one asset: records who staked what and when, and counts it
/// against the user's stake limit.  Fails with `MaxStakeReached` when
/// the user is at the limit, leaving the position untouched.
pub fn stake(
    user: &mut UserAccount,
    config: &StakeConfig,
    owner: u64,
    mint: u64,
    now: i64,
    bump: u8,
) -> (r: Result<StakeAccount, StakeError>)
    ensures
        (r is Ok <==> old(user).amount_staked < config.max_stake),
        (r is Err <==> r == Err::<StakeAccount, StakeError>(StakeError::MaxStakeReached)
            && old(user).amount_staked >= config.max_stake),
        r matches Ok(account) ==> {
            &&& account.owner == owner
            &&& account.mint == mint
            &&& account.staked_at == now
            &&& account.bump == bump
            &&& final(user).amount_staked == old(user).amount_staked + 1
            &&& final(user).points == old(user).points
            &&& final(user).bump == old(user).bump
        },
        r is Err ==> *final(user) == *old(user),
{
    if user.amount_staked >= config.max_stake {
        return Err(StakeError::MaxStakeReached);
    }
    user.amount_staked = user.amount_staked + 1;
    Ok(StakeAccount { owner, mint, staked_at: now, bump })
}

/// Unstakes one asset: enforces the freeze period, credits the points
/// earned for the whole days the asset was staked, and releases one
/// slot of the user's stake limit.  Fails with `FreezePeriodNotPassed`
/// before `staked_at + freeze_period`, leaving the position untouched.
///
/// The caller must hold a live stake (`amount_staked` positive, with
/// the stake record's timestamp), the timestamps must be close enough
/// for the elapsed seconds to fit 32 bits, and the credited points
/// must fit the accumulator; outside those bounds the unchecked
/// arithmetic this models would abort.
pub fn unstake(user: &mut UserAccount, config: &StakeConfig, staked_at: i64, now: i64) -> (r:
    Result<u32, StakeError>)
    requires
        old(user).amount_staked > 0,
        staked_at + config.freeze_period <= i64::MAX,
        now - staked_at <= u32::MAX,
        now >= staked_at + config.freeze_period ==> old(user).points + spec_points_earned(
            staked_at as int,
            now as int,
            config.points_per_stake as int,
        ) <= u32::MAX,
    ensures
        (r is Err <==> r == Err::<u32, StakeError>(StakeError::FreezePeriodNotPassed)
            && now < staked_at + config.freeze_period),
        r is Err ==> *final(user) == *old(user),
        r matches Ok(earned) ==> {
            &&& earned == spec_points_earned(
                staked_at as int,
                now as int,
                config.points_per_stake as int,
            )
            &&& final(user).points == old(user).points + earned
            &&& final(user).amount_staked == old(user).amount_staked - 1
            &&& final(user).bump == old(user).bump
        },
{
    let freeze_period = config.freeze_period as i64;
    if now < staked_at + freeze_period {
        return Err(StakeError::FreezePeriodNotPassed);
    }
    let time_passed_sec = now - staked_at;
    let days_staked = (time_passed_sec as u32) / SECONDS_PER_DAY;
    proof {
        vstd::arithmetic::mul::lemma_mul_nonnegative(
            days_staked as int,
            config.points_per_stake as int,
        );
    }
    let points_earned = days_staked * (config.points_per_stake as u32);
    user.amount_staked = user.amount_staked - 1;
    user.points = user.points + points_earned;
    Ok(points_earned)
}

/// Claims the accrued reward points: returns how many reward tokens
/// the host must mint to the user and resets the accumulator.
pub fn claim(user: &mut UserAccount) -> (minted: u64)
    ensures
        minted == old(user).points,
        final(user).points == 0,
        final(user).amount_staked == old(user).amount_staked,
        final(user).bump == old(user).bump,
{
    let minted = user.points as u64;
    user.points = 0;
    minted
}

} // verus!
