use vstd::prelude::*;

use crate::arith::elapsed;
use crate::arith::elapsed_time;
use crate::arith::sat_add;
use crate::errors::CustomError;
use crate::reward::tier_multiplier;
use crate::state::AccountId;
use crate::state::LpStakeAccount;
use crate::state::NFTStakeAccount;
use crate::state::StakeAccount;

verus! {

/// One day of stake time.
pub const SECONDS_PER_DAY: i64 = 86400;

/// Claims made before this much time has passed pay the early-exit penalty.
pub const MIN_STAKE_DURATION: i64 = 7 * 86400;

/// The early-exit penalty, as a percentage of the final reward.
pub const EARLY_EXIT_PENALTY_RATE: u64 = 10;

/// Stake ages at which the loyalty multiplier steps up.
pub const LOYALTY_TIER_LONG: i64 = 180 * 86400;

/// See `LOYALTY_TIER_LONG`.
pub const LOYALTY_TIER_MID: i64 = 90 * 86400;

/// See `LOYALTY_TIER_LONG`.
pub const LOYALTY_TIER_SHORT: i64 = 30 * 86400;

/// The base claim reward is a tenth of the staked amount, and the loyalty
/// multiplier is expressed in tenths, so both divide by this.
pub const TENTHS: u64 = 10;

/// The NFT boost adds a fifth on top of the loyalty-adjusted reward.
pub const NFT_BOOST_DIVISOR: u64 = 5;

/// Floor price at or below which NFT collateral may not be staked.
pub const NFT_FLOOR_THRESHOLD: i64 = 1000;

/// The LP claim reward is the multiplied LP stake divided by this.
pub const LP_REWARD_DIVISOR: u64 = 100;

/// What a claim pays out: the penalty minted to the DAO treasury and the
/// reward minted to the staker. A compounded reward is added to the staked
/// amount instead and `payout` is zero.
#[derive(Clone, Copy, Debug, PartialEq, Eq, Structural)]
pub struct ClaimOutcome {
    pub treasury_fee: u64,
    pub payout: u64,
}

/// The penalty rate in percent: ten inside the early-exit window, nothing
/// after it.
pub open spec fn penalty_rate(time_staked: int) -> u64 {
    if time_staked < MIN_STAKE_DURATION {
        EARLY_EXIT_PENALTY_RATE
    } else {
        0u64
    }
}

/// The loyalty multiplier in tenths: 1.5x after 180 days, 1.3x after 90,
/// 1.1x after 30, and 1.0x before that.
pub open spec fn loyalty_multiplier(time_staked: int) -> u64 {
    if time_staked >= LOYALTY_TIER_LONG {
        15u64
    } else if time_staked >= LOYALTY_TIER_MID {
        13u64
    } else if time_staked >= LOYALTY_TIER_SHORT {
        11u64
    } else {
        10u64
    }
}

/// The complete claim transition: from the position and the linked NFT
/// collateral's boost flag to the new position and the outcome.
///
/// The reward starts at a tenth of the staked amount, is scaled by the
/// loyalty multiplier, boosted by a fifth if the collateral is boosted, and
/// reduced by the early-exit penalty, which goes to the treasury. An
/// auto-compounding position absorbs the reward into its amount; any other
/// position leaves its amount unchanged and the reward is paid out. A
/// multiplication that no longer fits rejects the claim with no effect.
pub open spec fn claim_step(staker: StakeAccount, nft_boosted: bool, now: i64) -> (
    StakeAccount,
    Result<ClaimOutcome, CustomError>,
) {
    let time_staked = elapsed(now, staker.stake_timestamp);
    let rate = penalty_rate(time_staked) as int;
    let base_reward = staker.amount as int / (TENTHS as int);
    let scaled = base_reward * loyalty_multiplier(time_staked);
    if scaled > u64::MAX {
        (staker, Err(CustomError::ArithmeticOverflow))
    } else {
        let loyalty_reward = scaled / (TENTHS as int);
        let boosted_reward = if nft_boosted {
            loyalty_reward + loyalty_reward / (NFT_BOOST_DIVISOR as int)
        } else {
            loyalty_reward
        };
        if boosted_reward * rate > u64::MAX {
            (staker, Err(CustomError::ArithmeticOverflow))
        } else {
            let fee = boosted_reward * rate / 100;
            let reward = (boosted_reward - fee) as u64;
            if staker.auto_compound {
                (
                    StakeAccount { amount: sat_add(staker.amount, reward), ..staker },
                    Ok(ClaimOutcome { treasury_fee: fee as u64, payout: 0u64 }),
                )
            } else {
                (staker, Ok(ClaimOutcome { treasury_fee: fee as u64, payout: reward }))
            }
        }
    }
}

/// Stakes `amount` more tokens into the caller's position.
///
/// The host performs the matching token transfer into the pool first; this
/// records it. The staked amount grows by a checked addition and the
/// auto-compound choice is replaced; the stake timestamp is set only when
/// the position is created, never here.
pub fn stake_tokens(
    staker: &mut StakeAccount,
    caller: AccountId,
    amount: u64,
    auto_compound: bool,
) -> (r: Result<(), CustomError>)
    requires
        old(staker).owner == caller,
    ensures
        r is Ok <==> old(staker).amount + amount <= u64::MAX,
        r is Ok ==> *final(staker) == (StakeAccount {
            amount: (old(staker).amount + amount) as u64,
            auto_compound,
            ..*old(staker)
        }),
        r is Err ==> *final(staker) == *old(staker) && r == Err::<(), CustomError>(
            CustomError::ArithmeticOverflow,
        ),
{
    match staker.amount.checked_add(amount) {
        Some(new_amount) => {
            staker.amount = new_amount;
            staker.auto_compound = auto_compound;
            Ok(())
        },
        None => Err(CustomError::ArithmeticOverflow),
    }
}

/// Claims the staking reward for the caller's position.
///
/// The position and the outcome after the call are exactly `claim_step` of
/// the position before it: a rejected claim mutates nothing, the owner, the
/// timestamp and the auto-compound choice never change, and the staked
/// amount never shrinks.
pub fn claim_stake_rewards(
    staker: &mut StakeAccount,
    caller: AccountId,
    nft_boosted: bool,
    now: i64,
) -> (r: Result<ClaimOutcome, CustomError>)
    requires
        old(staker).owner == caller,
    ensures
        (*final(staker), r) == claim_step(*old(staker), nft_boosted, now),
        r is Err ==> *final(staker) == *old(staker),
        final(staker).owner == old(staker).owner,
        final(staker).stake_timestamp == old(staker).stake_timestamp,
        final(staker).auto_compound == old(staker).auto_compound,
        final(staker).amount >= old(staker).amount,
        !old(staker).auto_compound ==> *final(staker) == *old(staker),
{
    let time_staked: i64 = elapsed_time(now, staker.stake_timestamp);
    let rate: u64 = if time_staked < MIN_STAKE_DURATION {
        EARLY_EXIT_PENALTY_RATE
    } else {
        0
    };
    let base_reward: u64 = staker.amount / TENTHS;
    let multiplier: u64 = if time_staked >= LOYALTY_TIER_LONG {
        15
    } else if time_staked >= LOYALTY_TIER_MID {
        13
    } else if time_staked >= LOYALTY_TIER_SHORT {
        11
    } else {
        10
    };
    let scaled: u64 = match base_reward.checked_mul(multiplier) {
        Some(product) => product,
        None => {
            return Err(CustomError::ArithmeticOverflow);
        },
    };
    let loyalty_reward: u64 = scaled / TENTHS;
    let boosted_reward: u64 = if nft_boosted {
        loyalty_reward + loyalty_reward / NFT_BOOST_DIVISOR
    } else {
        loyalty_reward
    };
    let fee_product: u64 = match boosted_reward.checked_mul(rate) {
        Some(product) => product,
        None => {
            return Err(CustomError::ArithmeticOverflow);
        },
    };
    let treasury_fee: u64 = fee_product / 100;
    proof {
        crate::arith::lemma_div_monotone(
            fee_product as int,
            100 * (boosted_reward as int),
            100,
        );
        vstd::arithmetic::div_mod::lemma_div_multiples_vanish(boosted_reward as int, 100);
    }
    let reward: u64 = boosted_reward - treasury_fee;
    if staker.auto_compound {
        staker.amount = staker.amount.saturating_add(reward);
        Ok(ClaimOutcome { treasury_fee, payout: 0 })
    } else {
        Ok(ClaimOutcome { treasury_fee, payout: reward })
    }
}

/// A rejected claim drifts nothing: it leaves the position exactly as it
/// was, and replaying it against that unchanged position yields the same
/// rejection and, again, the same position.
pub proof fn lemma_rejected_claim_is_stable(staker: StakeAccount, nft_boosted: bool, now: i64)
    requires
        claim_step(staker, nft_boosted, now).1 is Err,
    ensures
        ({
            let first = claim_step(staker, nft_boosted, now);
            let replay = claim_step(first.0, nft_boosted, now);
            first.0 == staker && replay == first
        }),
{
}

/// Stakes NFT collateral for `owner`.
///
/// The host reads the collateral's floor price from its own feed; the stake
/// is rejected, with no effect, unless that price is strictly above the
/// threshold. An accepted stake records the collateral and grants the
/// boost, and nothing here ever takes a granted boost away.
pub fn stake_nft(
    nft_stake: &mut NFTStakeAccount,
    owner: AccountId,
    nft_mint: AccountId,
    floor_price: i64,
) -> (r: Result<(), CustomError>)
    ensures
        r is Ok <==> floor_price > NFT_FLOOR_THRESHOLD,
        r is Ok ==> *final(nft_stake) == (NFTStakeAccount {
            owner,
            nft_minted: nft_mint,
            boosted: true,
        }),
        r is Err ==> *final(nft_stake) == *old(nft_stake) && r == Err::<(), CustomError>(
            CustomError::NFTFloorTooLow,
        ),
        old(nft_stake).boosted ==> final(nft_stake).boosted,
{
    if floor_price <= NFT_FLOOR_THRESHOLD {
        return Err(CustomError::NFTFloorTooLow);
    }
    nft_stake.owner = owner;
    nft_stake.nft_minted = nft_mint;
    nft_stake.boosted = true;
    Ok(())
}

impl LpStakeAccount {
    /// The position's invariant: the stored multiplier is exactly the tier
    /// of the stored amount.
    pub open spec fn wf(self) -> bool {
        self.reward_multiplier == tier_multiplier(self.lp_staked)
    }
}

/// Stakes `amount` more LP tokens into the caller's position.
///
/// The host performs the matching LP-token transfer first; this records it.
/// The staked amount grows by a checked addition and the tier multiplier is
/// recomputed, purely, from the new cumulative amount.
pub fn stake_lp_tokens(lp_stake: &mut LpStakeAccount, caller: AccountId, amount: u64) -> (r: Result<
    (),
    CustomError,
>)
    requires
        old(lp_stake).owner == caller,
    ensures
        r is Ok <==> old(lp_stake).lp_staked + amount <= u64::MAX,
        r is Ok ==> final(lp_stake).lp_staked == old(lp_stake).lp_staked + amount,
        r is Ok ==> final(lp_stake).owner == old(lp_stake).owner && final(lp_stake).wf(),
        r is Err ==> *final(lp_stake) == *old(lp_stake) && r == Err::<(), CustomError>(
            CustomError::ArithmeticOverflow,
        ),
{
    let new_total: u64 = match lp_stake.lp_staked.checked_add(amount) {
        Some(total) => total,
        None => {
            return Err(CustomError::ArithmeticOverflow);
        },
    };
    lp_stake.lp_staked = new_total;
    lp_stake.reward_multiplier = if new_total > crate::reward::TRADER_TIER_HIGH {
        5
    } else if new_total > crate::reward::TRADER_TIER_MID {
        2
    } else {
        1
    };
    Ok(())
}

/// Computes the LP claim reward: the staked LP amount times the stored tier
/// multiplier, divided by a hundred. The claim never touches the principal;
/// the host mints the returned amount to the staker.
pub fn claim_lp_rewards(lp_stake: &LpStakeAccount, caller: AccountId) -> (r: Result<
    u64,
    CustomError,
>)
    requires
        lp_stake.owner == caller,
    ensures
        r is Ok <==> lp_stake.lp_staked * lp_stake.reward_multiplier <= u64::MAX,
        r is Ok ==> r->Ok_0 == lp_stake.lp_staked * lp_stake.reward_multiplier / (
        LP_REWARD_DIVISOR as int),
        r is Err ==> r == Err::<u64, CustomError>(CustomError::ArithmeticOverflow),
{
    match lp_stake.lp_staked.checked_mul(lp_stake.reward_multiplier as u64) {
        Some(product) => Ok(product / LP_REWARD_DIVISOR),
        None => Err(CustomError::ArithmeticOverflow),
    }
}

} // verus!
