use vstd::prelude::*;

use crate::arith::lemma_div_monotone;
use crate::arith::lemma_sub_tenth_monotone;
use crate::arith::sat_add;
use crate::errors::CustomError;
use crate::state::GlobalState;
use crate::state::TraderVolume;

verus! {

/// The minimum number of distinct recently active traders required before a
/// trade may earn a reward; fewer suggests coordinated manipulation.
pub const MIN_UNIQUE_TRADERS: u64 = 5;

/// Minimum time a trader must wait after a trade before the next one counts.
pub const MIN_HOLD_DURATION: i64 = 60;

/// Cumulative trader volume above which the trader tier multiplier is 5.
pub const TRADER_TIER_HIGH: u64 = 1_000_000;

/// Cumulative trader volume above which the trader tier multiplier is 2.
pub const TRADER_TIER_MID: u64 = 100_000;

/// Protocol-wide volume above which every reward is doubled.
pub const PROTOCOL_VOLUME_THRESHOLD: u64 = 1_000_000_000;

/// The reward is the multiplied trade amount divided by this.
pub const REWARD_RATE_DIVISOR: u64 = 1000;

/// When an insurance pool is configured, this fraction's worth (a tenth) of
/// the reward is diverted to it.
pub const INSURANCE_FEE_DIVISOR: u64 = 10;

/// What an accepted trade pays out: the part minted to the trader and the
/// part diverted to the insurance pool.
#[derive(Clone, Copy, Debug, PartialEq, Eq, Structural)]
pub struct TradeReward {
    pub reward_to_trader: u64,
    pub fee_to_insurance: u64,
}

/// The trader tier: a step function of cumulative volume.
pub open spec fn tier_multiplier(volume: u64) -> u64 {
    if volume > TRADER_TIER_HIGH {
        5u64
    } else if volume > TRADER_TIER_MID {
        2u64
    } else {
        1u64
    }
}

/// The protocol-wide dynamic multiplier: rewards double once the aggregate
/// volume passes the threshold.
pub open spec fn dynamic_multiplier(protocol_volume: u64) -> u64 {
    if protocol_volume > PROTOCOL_VOLUME_THRESHOLD {
        2u64
    } else {
        1u64
    }
}

/// The full multiplier applied to a trade: the trader tier, computed from
/// the cumulative volume as it stands after this trade, times the dynamic
/// multiplier from the protocol-wide volume before it.
pub open spec fn trade_multiplier(trade_amount: u64, total_volume: u64, protocol_volume: u64) -> int {
    tier_multiplier(sat_add(total_volume, trade_amount)) * dynamic_multiplier(protocol_volume)
}

/// Whether `trade_price` lies within five percent of `oracle_price`,
/// inclusive on both sides, with the five percent taken as the truncated
/// twentieth of the oracle price.
pub open spec fn price_band_ok(trade_price: u64, oracle_price: u64) -> bool {
    oracle_price - oracle_price / 20 <= trade_price <= oracle_price + oracle_price / 20
}

/// The first gate a trade request fails, or `None` if every gate passes.
///
/// The gates, in order: enough distinct traders; a positive oracle price;
/// the submitted price inside the oracle band; the minimum hold window
/// strictly elapsed since the trader's previous trade; and the multiplied
/// trade amount still representable.
pub open spec fn trade_rejection(
    trade_amount: u64,
    trade_price: u64,
    unique_trader_count: u64,
    oracle_price: i64,
    last_trade_time: i64,
    now: i64,
    total_volume: u64,
    protocol_volume: u64,
) -> Option<CustomError> {
    if unique_trader_count < MIN_UNIQUE_TRADERS {
        Some(CustomError::InsufficientUniqueTraders)
    } else if oracle_price <= 0 {
        Some(CustomError::NegativePythPrice)
    } else if !price_band_ok(trade_price, oracle_price as u64) {
        Some(CustomError::InvalidTradePrice)
    } else if !(now > last_trade_time + MIN_HOLD_DURATION) {
        Some(CustomError::FlashLoanDetected)
    } else if trade_amount * trade_multiplier(trade_amount, total_volume, protocol_volume)
        > u64::MAX {
        Some(CustomError::ArithmeticOverflow)
    } else {
        None
    }
}

/// The reward an accepted trade earns before the insurance split: the trade
/// amount times the full multiplier, divided (truncating) by the rate
/// divisor.
pub open spec fn trade_reward_total(trade_amount: u64, total_volume: u64, protocol_volume: u64) -> int {
    trade_amount * trade_multiplier(trade_amount, total_volume, protocol_volume) / (
    REWARD_RATE_DIVISOR as int)
}

/// The insurance pool's share of a reward: a truncated tenth when a pool is
/// configured, nothing otherwise.
pub open spec fn insurance_fee(reward: u64, insurance_configured: bool) -> u64 {
    if insurance_configured {
        (reward / INSURANCE_FEE_DIVISOR) as u64
    } else {
        0u64
    }
}

/// The complete trade-reward transition: from the global state, the
/// trader's volume record and the request, to the new states and the
/// outcome. A rejected request leaves both records exactly as they were; an
/// accepted one grows both volumes (saturating), stamps the trade time, and
/// splits the reward.
pub open spec fn trade_step(
    global: GlobalState,
    tv: TraderVolume,
    trade_amount: u64,
    trade_price: u64,
    unique_trader_count: u64,
    oracle_price: i64,
    now: i64,
    insurance_configured: bool,
) -> (GlobalState, TraderVolume, Result<TradeReward, CustomError>) {
    let rejection = trade_rejection(
        trade_amount,
        trade_price,
        unique_trader_count,
        oracle_price,
        tv.last_trade_time,
        now,
        tv.total_volume,
        global.protocol_wide_volume,
    );
    match rejection {
        Some(e) => (global, tv, Err(e)),
        None => {
            let total = trade_reward_total(
                trade_amount,
                tv.total_volume,
                global.protocol_wide_volume,
            ) as u64;
            let fee = insurance_fee(total, insurance_configured);
            (
                GlobalState {
                    protocol_wide_volume: sat_add(global.protocol_wide_volume, trade_amount),
                    ..global
                },
                TraderVolume {
                    total_volume: sat_add(tv.total_volume, trade_amount),
                    last_trade_time: now,
                    ..tv
                },
                Ok(TradeReward { reward_to_trader: (total - fee) as u64, fee_to_insurance: fee }),
            )
        },
    }
}

/// Rewards a trader for an executed trade, after every anti-manipulation
/// gate passes.
///
/// `oracle_price` and `now` are read by the host from the price feed and
/// the clock; `insurance_configured` says whether an insurance destination
/// exists. The outcome and both records after the call are exactly
/// `trade_step` of the records before it: rejections mutate nothing, and an
/// accepted trade never shrinks either volume and strictly advances the
/// trader's last trade time.
pub fn reward_trade(
    global: &mut GlobalState,
    trader_volume: &mut TraderVolume,
    trade_amount: u64,
    trade_price: u64,
    unique_trader_count: u64,
    oracle_price: i64,
    now: i64,
    insurance_configured: bool,
) -> (r: Result<TradeReward, CustomError>)
    ensures
        (*final(global), *final(trader_volume), r) == trade_step(
            *old(global),
            *old(trader_volume),
            trade_amount,
            trade_price,
            unique_trader_count,
            oracle_price,
            now,
            insurance_configured,
        ),
        r is Ok <==> trade_rejection(
            trade_amount,
            trade_price,
            unique_trader_count,
            oracle_price,
            old(trader_volume).last_trade_time,
            now,
            old(trader_volume).total_volume,
            old(global).protocol_wide_volume,
        ) is None,
        r is Err ==> *final(global) == *old(global) && *final(trader_volume) == *old(
            trader_volume,
        ),
        unique_trader_count < MIN_UNIQUE_TRADERS ==> r == Err::<TradeReward, CustomError>(
            CustomError::InsufficientUniqueTraders,
        ),
        !(oracle_price > 0 && price_band_ok(trade_price, oracle_price as u64)) ==> r is Err,
        r is Ok ==> now > old(trader_volume).last_trade_time + MIN_HOLD_DURATION,
        r is Ok ==> final(trader_volume).total_volume >= old(trader_volume).total_volume
            && final(global).protocol_wide_volume >= old(global).protocol_wide_volume
            && final(trader_volume).last_trade_time == now && final(trader_volume).last_trade_time
            > old(trader_volume).last_trade_time,
{
    if unique_trader_count < MIN_UNIQUE_TRADERS {
        return Err(CustomError::InsufficientUniqueTraders);
    }
    if oracle_price <= 0 {
        return Err(CustomError::NegativePythPrice);
    }
    let oracle_magnitude: u64 = oracle_price as u64;
    let five_percent: u64 = oracle_magnitude / 20;
    let lower_bound: u64 = oracle_magnitude - five_percent;
    let upper_bound: u64 = oracle_magnitude + five_percent;
    if !(trade_price >= lower_bound && trade_price <= upper_bound) {
        return Err(CustomError::InvalidTradePrice);
    }
    let hold_ok: bool = match trader_volume.last_trade_time.checked_add(MIN_HOLD_DURATION) {
        Some(window_end) => now > window_end,
        None => false,
    };
    if !hold_ok {
        return Err(CustomError::FlashLoanDetected);
    }
    let new_volume: u64 = trader_volume.total_volume.saturating_add(trade_amount);
    let base_multiplier: u64 = if new_volume > TRADER_TIER_HIGH {
        5
    } else if new_volume > TRADER_TIER_MID {
        2
    } else {
        1
    };
    let dynamic_adjust: u64 = if global.protocol_wide_volume > PROTOCOL_VOLUME_THRESHOLD {
        2
    } else {
        1
    };
    let reward_multiplier: u64 = base_multiplier * dynamic_adjust;
    let total: u64 = match trade_amount.checked_mul(reward_multiplier) {
        Some(product) => product / REWARD_RATE_DIVISOR,
        None => {
            return Err(CustomError::ArithmeticOverflow);
        },
    };
    let fee: u64 = if insurance_configured {
        total / INSURANCE_FEE_DIVISOR
    } else {
        0
    };
    trader_volume.total_volume = new_volume;
    trader_volume.last_trade_time = now;
    global.protocol_wide_volume = global.protocol_wide_volume.saturating_add(trade_amount);
    Ok(TradeReward { reward_to_trader: total - fee, fee_to_insurance: fee })
}

/// A rejected trade drifts nothing: it leaves both records exactly as they
/// were, and replaying the same request against that unchanged state yields
/// the same rejection and, again, the same state.
pub proof fn lemma_rejected_trade_is_stable(
    global: GlobalState,
    tv: TraderVolume,
    trade_amount: u64,
    trade_price: u64,
    unique_trader_count: u64,
    oracle_price: i64,
    now: i64,
    insurance_configured: bool,
)
    requires
        trade_step(
            global,
            tv,
            trade_amount,
            trade_price,
            unique_trader_count,
            oracle_price,
            now,
            insurance_configured,
        ).2 is Err,
    ensures
        ({
            let first = trade_step(
                global,
                tv,
                trade_amount,
                trade_price,
                unique_trader_count,
                oracle_price,
                now,
                insurance_configured,
            );
            let replay = trade_step(
                first.0,
                first.1,
                trade_amount,
                trade_price,
                unique_trader_count,
                oracle_price,
                now,
                insurance_configured,
            );
            first.0 == global && first.1 == tv && replay == first
        }),
{
}

/// After an accepted trade, any second trade by the same trader whose time
/// delta is below the minimum hold window is rejected.
pub proof fn lemma_hold_window_rejects_second_trade(
    global: GlobalState,
    tv: TraderVolume,
    trade_amount: u64,
    trade_price: u64,
    unique_trader_count: u64,
    oracle_price: i64,
    now: i64,
    insurance_configured: bool,
    second_amount: u64,
    second_price: u64,
    second_trader_count: u64,
    second_oracle_price: i64,
    second_now: i64,
    second_insurance: bool,
)
    requires
        trade_step(
            global,
            tv,
            trade_amount,
            trade_price,
            unique_trader_count,
            oracle_price,
            now,
            insurance_configured,
        ).2 is Ok,
        second_now - now < MIN_HOLD_DURATION,
    ensures
        ({
            let first = trade_step(
                global,
                tv,
                trade_amount,
                trade_price,
                unique_trader_count,
                oracle_price,
                now,
                insurance_configured,
            );
            trade_step(
                first.0,
                first.1,
                second_amount,
                second_price,
                second_trader_count,
                second_oracle_price,
                second_now,
                second_insurance,
            ).2 is Err
        }),
{
    let first = trade_step(
        global,
        tv,
        trade_amount,
        trade_price,
        unique_trader_count,
        oracle_price,
        now,
        insurance_configured,
    );
    assert(first.1.last_trade_time == now);
    assert(!(second_now > now + MIN_HOLD_DURATION));
}

/// Holding every other input and the pre-state fixed, a larger trade amount
/// never earns the trader a smaller reward.
pub proof fn lemma_reward_monotone_in_trade_amount(
    global: GlobalState,
    tv: TraderVolume,
    smaller_amount: u64,
    larger_amount: u64,
    trade_price: u64,
    unique_trader_count: u64,
    oracle_price: i64,
    now: i64,
    insurance_configured: bool,
)
    requires
        smaller_amount <= larger_amount,
        trade_step(
            global,
            tv,
            smaller_amount,
            trade_price,
            unique_trader_count,
            oracle_price,
            now,
            insurance_configured,
        ).2 is Ok,
        trade_step(
            global,
            tv,
            larger_amount,
            trade_price,
            unique_trader_count,
            oracle_price,
            now,
            insurance_configured,
        ).2 is Ok,
    ensures
        trade_step(
            global,
            tv,
            smaller_amount,
            trade_price,
            unique_trader_count,
            oracle_price,
            now,
            insurance_configured,
        ).2->Ok_0.reward_to_trader <= trade_step(
            global,
            tv,
            larger_amount,
            trade_price,
            unique_trader_count,
            oracle_price,
            now,
            insurance_configured,
        ).2->Ok_0.reward_to_trader,
{
    let volume = tv.total_volume;
    let protocol_volume = global.protocol_wide_volume;
    let tier_small = tier_multiplier(sat_add(volume, smaller_amount));
    let tier_large = tier_multiplier(sat_add(volume, larger_amount));
    let dynamic = dynamic_multiplier(protocol_volume);
    assert(tier_small <= tier_large);
    vstd::arithmetic::mul::lemma_mul_inequality(tier_small as int, tier_large as int, dynamic as int);
    let mult_small = trade_multiplier(smaller_amount, volume, protocol_volume);
    let mult_large = trade_multiplier(larger_amount, volume, protocol_volume);
    vstd::arithmetic::mul::lemma_mul_upper_bound(
        smaller_amount as int,
        larger_amount as int,
        mult_small,
        mult_large,
    );
    lemma_div_monotone(
        smaller_amount * mult_small,
        larger_amount * mult_large,
        REWARD_RATE_DIVISOR as int,
    );
    let total_small = trade_reward_total(smaller_amount, volume, protocol_volume);
    let total_large = trade_reward_total(larger_amount, volume, protocol_volume);
    crate::arith::lemma_div_le_self(smaller_amount * mult_small, REWARD_RATE_DIVISOR as int);
    crate::arith::lemma_div_le_self(larger_amount * mult_large, REWARD_RATE_DIVISOR as int);
    if insurance_configured {
        lemma_sub_tenth_monotone(total_small, total_large);
    }
}

} // verus!
