use multi_yield::errors::CustomError;
use multi_yield::stake::claim_lp_rewards;
use multi_yield::stake::claim_stake_rewards;
use multi_yield::stake::stake_lp_tokens;
use multi_yield::stake::stake_nft;
use multi_yield::stake::stake_tokens;
use multi_yield::state::LpStakeAccount;
use multi_yield::state::NFTStakeAccount;
use multi_yield::state::StakeAccount;

const DAY: i64 = 86400;

fn staked_position(amount: u64, auto_compound: bool) -> StakeAccount {
    let mut staker = StakeAccount::new(7, 0);
    stake_tokens(&mut staker, 7, amount, auto_compound).unwrap();
    staker
}

#[test]
fn stake_accumulates_and_keeps_timestamp() {
    let mut staker = StakeAccount::new(7, 1000);
    stake_tokens(&mut staker, 7, 500, true).unwrap();
    assert_eq!(staker.amount, 500);
    assert!(staker.auto_compound);
    assert_eq!(staker.stake_timestamp, 1000);
    stake_tokens(&mut staker, 7, 300, false).unwrap();
    assert_eq!(staker.amount, 800);
    assert!(!staker.auto_compound);
    assert_eq!(staker.stake_timestamp, 1000);
}

#[test]
fn stake_overflow_is_rejected() {
    let mut staker = staked_position(u64::MAX - 5, false);
    let before = staker;
    let r = stake_tokens(&mut staker, 7, 10, true);
    assert_eq!(r, Err(CustomError::ArithmeticOverflow));
    assert_eq!(staker, before);
}

#[test]
fn claim_after_forty_days() {
    let mut staker = staked_position(100_000, false);
    let outcome = claim_stake_rewards(&mut staker, 7, false, 40 * DAY).unwrap();
    assert_eq!(outcome.payout, 11_000);
    assert_eq!(outcome.treasury_fee, 0);
    assert_eq!(staker.amount, 100_000);
}

#[test]
fn claim_after_forty_days_compounds() {
    let mut staker = staked_position(100_000, true);
    let outcome = claim_stake_rewards(&mut staker, 7, false, 40 * DAY).unwrap();
    assert_eq!(outcome.payout, 0);
    assert_eq!(outcome.treasury_fee, 0);
    assert_eq!(staker.amount, 111_000);
}

#[test]
fn claim_within_penalty_window() {
    // Three days in, the loyalty multiplier is still 1.0 and the ten
    // percent early-exit penalty applies to the whole reward.
    let mut staker = staked_position(100_000, false);
    let outcome = claim_stake_rewards(&mut staker, 7, false, 3 * DAY).unwrap();
    assert_eq!(outcome.treasury_fee, 1_000);
    assert_eq!(outcome.payout, 9_000);
    assert_eq!(staker.amount, 100_000);
}

#[test]
fn claim_with_nft_boost() {
    let mut staker = staked_position(100_000, false);
    let outcome = claim_stake_rewards(&mut staker, 7, true, 40 * DAY).unwrap();
    assert_eq!(outcome.payout, 13_200);
    assert_eq!(outcome.treasury_fee, 0);
}

#[test]
fn loyalty_tiers() {
    let mut staker = staked_position(100_000, false);
    let outcome = claim_stake_rewards(&mut staker, 7, false, 200 * DAY).unwrap();
    assert_eq!(outcome.payout, 15_000);
    let outcome = claim_stake_rewards(&mut staker, 7, false, 95 * DAY).unwrap();
    assert_eq!(outcome.payout, 13_000);
    let outcome = claim_stake_rewards(&mut staker, 7, false, 30 * DAY).unwrap();
    assert_eq!(outcome.payout, 11_000);
    let outcome = claim_stake_rewards(&mut staker, 7, false, 29 * DAY).unwrap();
    assert_eq!(outcome.payout, 10_000);
}

#[test]
fn claim_before_stake_time_counts_as_no_time() {
    let mut staker = StakeAccount::new(7, 5_000);
    stake_tokens(&mut staker, 7, 100_000, false).unwrap();
    let outcome = claim_stake_rewards(&mut staker, 7, false, 1_000).unwrap();
    assert_eq!(outcome.treasury_fee, 1_000);
    assert_eq!(outcome.payout, 9_000);
}

#[test]
fn nft_stake_rejected_at_floor() {
    let mut record = NFTStakeAccount::new(7);
    let before = record;
    let r = stake_nft(&mut record, 7, 42, 1000);
    assert_eq!(r, Err(CustomError::NFTFloorTooLow));
    assert_eq!(record, before);
    assert!(!record.boosted);
}

#[test]
fn nft_stake_boosts_above_floor() {
    let mut record = NFTStakeAccount::new(7);
    stake_nft(&mut record, 7, 42, 1001).unwrap();
    assert!(record.boosted);
    assert_eq!(record.nft_minted, 42);
    // A later rejected stake does not take the boost away.
    let r = stake_nft(&mut record, 7, 43, 900);
    assert_eq!(r, Err(CustomError::NFTFloorTooLow));
    assert!(record.boosted);
    assert_eq!(record.nft_minted, 42);
}

#[test]
fn lp_stake_recomputes_multiplier() {
    let mut lp = LpStakeAccount::new(9);
    stake_lp_tokens(&mut lp, 9, 50_000).unwrap();
    assert_eq!(lp.lp_staked, 50_000);
    assert_eq!(lp.reward_multiplier, 1);
    assert_eq!(claim_lp_rewards(&lp, 9).unwrap(), 500);
    // A second stake of 100,000 moves the total past the mid tier.
    stake_lp_tokens(&mut lp, 9, 100_000).unwrap();
    assert_eq!(lp.lp_staked, 150_000);
    assert_eq!(lp.reward_multiplier, 2);
    assert_eq!(claim_lp_rewards(&lp, 9).unwrap(), 3_000);
    // The claim leaves the principal untouched.
    assert_eq!(lp.lp_staked, 150_000);
}

#[test]
fn lp_high_tier() {
    let mut lp = LpStakeAccount::new(9);
    stake_lp_tokens(&mut lp, 9, 2_000_000).unwrap();
    assert_eq!(lp.reward_multiplier, 5);
    assert_eq!(claim_lp_rewards(&lp, 9).unwrap(), 100_000);
}

#[test]
fn lp_overflow_is_rejected() {
    let mut lp = LpStakeAccount::new(9);
    stake_lp_tokens(&mut lp, 9, u64::MAX).unwrap();
    let before = lp;
    let r = stake_lp_tokens(&mut lp, 9, 1);
    assert_eq!(r, Err(CustomError::ArithmeticOverflow));
    assert_eq!(lp, before);
    let lp = LpStakeAccount { owner: 9, lp_staked: u64::MAX, reward_multiplier: 5 };
    assert_eq!(claim_lp_rewards(&lp, 9), Err(CustomError::ArithmeticOverflow));
}

#[test]
fn claim_overflow_is_rejected() {
    let mut staker = StakeAccount { owner: 7, amount: u64::MAX, stake_timestamp: 0, auto_compound: false };
    let before = staker;
    let r = claim_stake_rewards(&mut staker, 7, false, 200 * DAY);
    assert_eq!(r, Err(CustomError::ArithmeticOverflow));
    assert_eq!(staker, before);
}
