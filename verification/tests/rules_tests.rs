use amm_engine::dice;
use amm_engine::dice::DiceError;
use amm_engine::funding;
use amm_engine::staking;
use amm_engine::staking::{StakeConfig, StakeError, UserAccount};
use amm_engine::whitelist::{MPLXCoreError, WhitelistedCreators};

#[test]
fn whitelist_add_and_contains() {
    let mut list = WhitelistedCreators::new(9);
    assert!(!list.contains(11));
    assert_eq!(list.whitelist_creator(11), Ok(()));
    assert!(list.contains(11));
    assert!(!list.contains(12));
    assert_eq!(list.num_creators, 1);
}

#[test]
fn whitelist_rejects_duplicates() {
    let mut list = WhitelistedCreators::new(9);
    assert_eq!(list.whitelist_creator(11), Ok(()));
    assert_eq!(list.whitelist_creator(11), Err(MPLXCoreError::CreatorAlreadyWhitelisted));
    assert_eq!(list.num_creators, 1);
}

#[test]
fn whitelist_fills_up() {
    let mut list = WhitelistedCreators::new(9);
    for creator in 1..=10u64 {
        assert_eq!(list.whitelist_creator(creator), Ok(()));
    }
    assert_eq!(list.whitelist_creator(99), Err(MPLXCoreError::CreatorListFull));
    assert_eq!(list.num_creators, 10);
    assert!(list.contains(10));
    assert!(!list.contains(99));
}

fn stake_config() -> StakeConfig {
    StakeConfig { points_per_stake: 2, max_stake: 3, freeze_period: 1000, rewards_bump: 4, bump: 5 }
}

#[test]
fn stake_records_and_counts() {
    let config = stake_config();
    let mut user = UserAccount { amount_staked: 0, points: 0, bump: 1 };
    let account = staking::stake(&mut user, &config, 21, 31, 7_000_000, 8).unwrap();
    assert_eq!(account.owner, 21);
    assert_eq!(account.mint, 31);
    assert_eq!(account.staked_at, 7_000_000);
    assert_eq!(account.bump, 8);
    assert_eq!(user.amount_staked, 1);
    assert_eq!(user.points, 0);
}

#[test]
fn stake_limit_is_enforced() {
    let config = stake_config();
    let mut user = UserAccount { amount_staked: 3, points: 0, bump: 1 };
    let r = staking::stake(&mut user, &config, 21, 31, 7_000_000, 8);
    assert!(matches!(r, Err(StakeError::MaxStakeReached)));
    assert_eq!(user.amount_staked, 3);
}

#[test]
fn unstake_enforces_freeze_period() {
    let config = stake_config();
    let mut user = UserAccount { amount_staked: 1, points: 0, bump: 1 };
    let r = staking::unstake(&mut user, &config, 7_000_000, 7_000_999);
    assert!(matches!(r, Err(StakeError::FreezePeriodNotPassed)));
    assert_eq!(user.amount_staked, 1);
    assert_eq!(user.points, 0);
}

#[test]
fn unstake_credits_points_per_whole_day() {
    let config = stake_config();
    let mut user = UserAccount { amount_staked: 1, points: 5, bump: 1 };
    // 3 whole days and a bit, at 2 points per day: 6 points earned.
    let earned = staking::unstake(&mut user, &config, 0, 3 * 86400 + 17).unwrap();
    assert_eq!(earned, 6);
    assert_eq!(user.points, 11);
    assert_eq!(user.amount_staked, 0);
}

#[test]
fn claim_mints_and_resets() {
    let mut user = UserAccount { amount_staked: 2, points: 11, bump: 1 };
    let minted = staking::claim(&mut user);
    assert_eq!(minted, 11);
    assert_eq!(user.points, 0);
    assert_eq!(user.amount_staked, 2);
}

#[test]
fn place_bet_validates_roll_and_stake() {
    assert!(matches!(
        dice::place_bet(1, 2, 97, 10_000_000, 3, 4),
        Err(DiceError::MaximumRoll)
    ));
    assert!(matches!(dice::place_bet(1, 2, 1, 10_000_000, 3, 4), Err(DiceError::MinimumRoll)));
    assert!(matches!(dice::place_bet(1, 2, 50, 9_999_999, 3, 4), Err(DiceError::MinimumBet)));
    let bet = dice::place_bet(1, 2, 50, 10_000_000, 3, 4).unwrap();
    assert_eq!(bet.player, 1);
    assert_eq!(bet.seed, 2);
    assert_eq!(bet.roll, 50);
    assert_eq!(bet.amount, 10_000_000);
    assert_eq!(bet.slot, 3);
    assert_eq!(bet.bump, 4);
}

#[test]
fn resolve_bet_pays_winning_roll() {
    // A random value of 0 rolls 1, under the threshold:
    // 10,000,000 * 9850 / 50 / 100 = 19,700,000.
    let r = dice::resolve_bet(50, 10_000_000, 0);
    assert_eq!(r, Ok(Some(19_700_000)));
}

#[test]
fn resolve_bet_loses_high_roll() {
    // A random value of 99 rolls 100, above every playable threshold.
    let r = dice::resolve_bet(96, 10_000_000, 99);
    assert_eq!(r, Ok(None));
}

#[test]
fn resolve_bet_overflowing_payout_rejected() {
    // The whole stake range at the lowest threshold prices the payout
    // far above 64 bits.
    let r = dice::resolve_bet(2, u64::MAX, 0);
    assert_eq!(r, Err(DiceError::Overflow));
}

#[test]
fn refund_bet_waits_for_timeout() {
    let bet = dice::place_bet(1, 2, 50, 10_000_000, 3000, 4).unwrap();
    assert!(matches!(dice::refund_bet(&bet, 4000), Err(DiceError::TimeoutNotReached)));
    assert_eq!(dice::refund_bet(&bet, 4001), Ok(10_000_000));
}

#[test]
fn funding_tallies_votes_by_type() {
    let mut dao = funding::init_dao("arts".to_string(), 5, 1);
    assert_eq!(dao.proposal_count, 0);
    let mut proposal = funding::init_proposal(&mut dao, 6, "mural".to_string(), 2);
    assert_eq!(dao.proposal_count, 1);
    assert_eq!(proposal.yes_vote_count, 0);
    assert_eq!(proposal.no_vote_count, 0);

    let yes = funding::cast(&mut proposal, 7, 40, 1, 3);
    assert_eq!(yes.authority, 7);
    assert_eq!(yes.vote_credits, 40);
    assert_eq!(yes.vote_type, 1);
    let _no = funding::cast(&mut proposal, 8, 15, 0, 3);
    assert_eq!(proposal.yes_vote_count, 40);
    assert_eq!(proposal.no_vote_count, 15);
}
