use amm_engine::config::Config;
use amm_engine::curve::proportional_amounts;
use amm_engine::errors::AmmError;
use amm_engine::pool::Pool;

fn pool_with(fee: u16, reserve_x: u64, reserve_y: u64, lp_supply: u64) -> Pool {
    let config = Config::new(42, Some(7), 1, 2, fee, 250, 251);
    Pool { config, reserve_x, reserve_y, lp_supply }
}

#[test]
fn withdraw_concrete_scenario() {
    // Burning 50,000 of a 500,000 supply (10%) against reserves of
    // 1,000,000 each pays out 100,000 of each asset.
    let mut pool = pool_with(30, 1_000_000, 1_000_000, 500_000);
    let r = pool.withdraw(60_000, 50_000, 0, 0);
    assert_eq!(r, Ok((100_000, 100_000)));
    assert_eq!(pool.reserve_x, 900_000);
    assert_eq!(pool.reserve_y, 900_000);
    assert_eq!(pool.lp_supply, 450_000);
}

#[test]
fn withdraw_full_supply_returns_reserves_exactly() {
    let mut pool = pool_with(30, 1_000_003, 999_999, 500_000);
    let r = pool.withdraw(500_000, 500_000, 0, 0);
    assert_eq!(r, Ok((1_000_003, 999_999)));
    assert_eq!(pool.reserve_x, 0);
    assert_eq!(pool.reserve_y, 0);
    assert_eq!(pool.lp_supply, 0);
}

#[test]
fn withdraw_zero_amount_rejected_without_mutation() {
    let mut pool = pool_with(30, 1_000_000, 1_000_000, 500_000);
    let r = pool.withdraw(60_000, 0, 0, 0);
    assert_eq!(r, Err(AmmError::InvalidAmount));
    assert_eq!(pool.reserve_x, 1_000_000);
    assert_eq!(pool.lp_supply, 500_000);
}

#[test]
fn withdraw_locked_pool_rejected_without_mutation() {
    let mut pool = pool_with(30, 1_000_000, 1_000_000, 500_000);
    assert!(pool.config.set_locked(7, true));
    let r = pool.withdraw(60_000, 50_000, 0, 0);
    assert_eq!(r, Err(AmmError::PoolLocked));
    assert_eq!(pool.reserve_x, 1_000_000);
    assert_eq!(pool.lp_supply, 500_000);
}

#[test]
fn withdraw_empty_pool_rejected() {
    let mut pool = pool_with(30, 1_000_000, 1_000_000, 0);
    let r = pool.withdraw(60_000, 50_000, 0, 0);
    assert_eq!(r, Err(AmmError::NoLiquidityInPool));
}

#[test]
fn withdraw_more_than_supply_rejected() {
    let mut pool = pool_with(30, 1_000_000, 1_000_000, 500_000);
    let r = pool.withdraw(600_000, 500_001, 0, 0);
    assert_eq!(r, Err(AmmError::LiquidityLessThanMinimum));
}

#[test]
fn withdraw_more_than_balance_rejected() {
    let mut pool = pool_with(30, 1_000_000, 1_000_000, 500_000);
    let r = pool.withdraw(49_999, 50_000, 0, 0);
    assert_eq!(r, Err(AmmError::InsufficientBalance));
    assert_eq!(pool.lp_supply, 500_000);
}

#[test]
fn withdraw_slippage_above_true_payout() {
    let mut pool = pool_with(30, 1_000_000, 1_000_000, 500_000);
    let r = pool.withdraw(60_000, 50_000, 100_001, 0);
    assert_eq!(r, Err(AmmError::SlippageExceeded));
    let r = pool.withdraw(60_000, 50_000, 0, 100_001);
    assert_eq!(r, Err(AmmError::SlippageExceeded));
    assert_eq!(pool.reserve_x, 1_000_000);
    assert_eq!(pool.reserve_y, 1_000_000);
    assert_eq!(pool.lp_supply, 500_000);
}

#[test]
fn withdraw_rounds_down() {
    // 3 claim tokens of a supply of 7 against reserves of 10 and 20:
    // floor(10 * 3 / 7) = 4 and floor(20 * 3 / 7) = 8.
    let mut pool = pool_with(30, 10, 20, 7);
    let r = pool.withdraw(7, 3, 0, 0);
    assert_eq!(r, Ok((4, 8)));
    assert_eq!(pool.reserve_x, 6);
    assert_eq!(pool.reserve_y, 12);
    assert_eq!(pool.lp_supply, 4);
}

#[test]
fn curve_zero_supply_degenerates() {
    assert_eq!(proportional_amounts(1_000_000, 1_000_000, 0, 1), Err(AmmError::CurveError));
}

#[test]
fn curve_oversized_claim_degenerates() {
    // A claim far above the supply prices each payout above 64 bits.
    assert_eq!(proportional_amounts(u64::MAX, u64::MAX, 1, u64::MAX), Err(AmmError::CurveError));
}

#[test]
fn curve_share_of_largest_reserves() {
    // Wide arithmetic keeps the largest reserves exact: half of the
    // supply claims floor(u64::MAX / 2) of each reserve.
    let r = proportional_amounts(u64::MAX, u64::MAX, 4, 2);
    assert_eq!(r, Ok((u64::MAX / 2, u64::MAX / 2)));
}

#[test]
fn set_locked_requires_the_authority() {
    let mut config = Config::new(42, Some(7), 1, 2, 30, 250, 251);
    assert!(!config.set_locked(8, true));
    assert!(!config.locked);
    assert!(config.set_locked(7, true));
    assert!(config.locked);
    assert!(config.set_locked(7, false));
    assert!(!config.locked);
}

#[test]
fn set_locked_without_authority_does_nothing() {
    let mut config = Config::new(42, None, 1, 2, 30, 250, 251);
    assert!(!config.set_locked(7, true));
    assert!(!config.locked);
}
