use vstd::prelude::*;

verus! {

/// The identity of a principal or of an on-ledger account.
///
/// The host addresses every per-principal record by a deterministic
/// derivation from this identity, so the engine only ever compares
/// identities; it treats them as opaque numbers.
pub type AccountId = u64;

/// The protocol-wide singleton: the mint identity, the bump used to sign
/// mint requests under the protocol authority, and the cumulative volume of
/// all accepted trades.
///
/// `protocol_wide_volume` never decreases: every accepted trade grows it by
/// a saturating addition.
#[derive(Clone, Copy, Debug, PartialEq, Eq, Structural)]
pub struct GlobalState {
    pub mint: AccountId,
    pub bump: u8,
    pub protocol_wide_volume: u64,
}

/// Per-trader cumulative volume and the time of the last accepted trade.
///
/// `total_volume` never decreases, and `last_trade_time` strictly increases
/// across accepted trades: the minimum hold window makes every accepted
/// trade strictly later than the previous one.
#[derive(Clone, Copy, Debug, PartialEq, Eq, Structural)]
pub struct TraderVolume {
    pub trader: AccountId,
    pub total_volume: u64,
    pub last_trade_time: i64,
}

/// A token staking position.
///
/// `stake_timestamp` is set once when the position is created and is not
/// reset by top-ups, so the loyalty and penalty clocks stay anchored to the
/// first stake.
#[derive(Clone, Copy, Debug, PartialEq, Eq, Structural)]
pub struct StakeAccount {
    pub owner: AccountId,
    pub amount: u64,
    pub stake_timestamp: i64,
    pub auto_compound: bool,
}

/// A stake of NFT collateral. `boosted` is granted once the floor-price
/// check passes and is never taken away.
#[derive(Clone, Copy, Debug, PartialEq, Eq, Structural)]
pub struct NFTStakeAccount {
    pub owner: AccountId,
    pub nft_minted: AccountId,
    pub boosted: bool,
}

/// A linear vesting schedule over an already-granted reward.
#[derive(Clone, Copy, Debug, PartialEq, Eq, Structural)]
pub struct VestingSchedule {
    pub owner: AccountId,
    pub total_reward: u64,
    pub claimed: u64,
    pub start_time: i64,
    pub duration: i64,
}

/// A liquidity-provider staking position. `reward_multiplier` is a pure
/// function of `lp_staked`, recomputed on every stake.
#[derive(Clone, Copy, Debug, PartialEq, Eq, Structural)]
pub struct LpStakeAccount {
    pub owner: AccountId,
    pub lp_staked: u64,
    pub reward_multiplier: u8,
}

/// The adjustable economic parameters, gated by a pre-computed approval
/// flag supplied by an out-of-scope governance process.
#[derive(Clone, Copy, Debug, PartialEq, Eq, Structural)]
pub struct Governance {
    pub total_votes: u64,
    pub reward_percentage: u8,
    pub lp_boost: u8,
    pub dao_approved: bool,
}

impl StakeAccount {
    /// A fresh, empty position for `owner`, created at time `now`. This is
    /// the only place the stake timestamp is set.
    pub fn new(owner: AccountId, now: i64) -> (s: StakeAccount)
        ensures
            s == (StakeAccount { owner, amount: 0u64, stake_timestamp: now, auto_compound: false }),
    {
        StakeAccount { owner, amount: 0, stake_timestamp: now, auto_compound: false }
    }
}

impl NFTStakeAccount {
    /// A fresh, unboosted collateral record for `owner`.
    pub fn new(owner: AccountId) -> (s: NFTStakeAccount)
        ensures
            s == (NFTStakeAccount { owner, nft_minted: 0u64, boosted: false }),
    {
        NFTStakeAccount { owner, nft_minted: 0, boosted: false }
    }
}

impl LpStakeAccount {
    /// A fresh, empty liquidity-provider position for `owner`.
    pub fn new(owner: AccountId) -> (s: LpStakeAccount)
        ensures
            s == (LpStakeAccount { owner, lp_staked: 0u64, reward_multiplier: 1u8 }),
    {
        LpStakeAccount { owner, lp_staked: 0, reward_multiplier: 1 }
    }
}

impl TraderVolume {
    /// A fresh volume record for `trader` with no accepted trades yet.
    pub fn new(trader: AccountId) -> (t: TraderVolume)
        ensures
            t == (TraderVolume { trader, total_volume: 0u64, last_trade_time: 0i64 }),
    {
        TraderVolume { trader, total_volume: 0, last_trade_time: 0 }
    }
}

} // verus!
