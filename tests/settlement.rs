use custody_engine::errors::{LabubuError, MarketError, StablecoinError};
use custody_engine::settlement::{consume_allowance, pool_payout, take_one};

#[test]
fn payout_sole_winner_takes_losing_pool() {
    assert_eq!(pool_payout(1_000_000_000, 1_000_000_000, 2_000_000_000), Ok(3_000_000_000));
}

#[test]
fn payout_shares_round_down() {
    assert_eq!(pool_payout(1, 3, 2), Ok(1));
    assert_eq!(pool_payout(2, 3, 2), Ok(3));
    assert_eq!(pool_payout(300, 1_000, 500), Ok(450));
}

#[test]
fn payout_uses_wide_product() {
    assert_eq!(pool_payout(u64::MAX / 2, u64::MAX / 2, u64::MAX / 2), Ok(u64::MAX - 1));
}

#[test]
fn payout_errors() {
    assert_eq!(pool_payout(0, 10, 10), Err(MarketError::NoWinnings));
    assert_eq!(pool_payout(5, 0, 10), Err(MarketError::Overflow));
    assert_eq!(pool_payout(u64::MAX, 1, 1), Err(MarketError::Overflow));
}

#[test]
fn allowance_consumption() {
    assert_eq!(consume_allowance(100, 40, 60), Ok(100));
    assert_eq!(consume_allowance(100, 40, 61), Err(StablecoinError::ExceedsAllowance));
    assert_eq!(consume_allowance(100, 101, 0), Err(StablecoinError::ExceedsAllowance));
    assert_eq!(consume_allowance(u64::MAX, 1, u64::MAX - 1), Ok(u64::MAX));
}

#[test]
fn supply_counter() {
    assert_eq!(take_one(6), Ok(5));
    assert_eq!(take_one(1), Ok(0));
    assert_eq!(take_one(0), Err(LabubuError::SoldOut));
}

#[test]
fn payouts_never_exceed_pools() {
    // Winning stakes 1 and 2 make a winning pool of 3; the losing pool is 2.
    let first = pool_payout(1, 3, 2).unwrap();
    let second = pool_payout(2, 3, 2).unwrap();
    assert_eq!(first + second, 4);
    assert!(first + second <= 3 + 2);
}
