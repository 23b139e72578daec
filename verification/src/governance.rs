use vstd::prelude::*;

use crate::errors::CustomError;
use crate::state::Governance;

verus! {

/// Ceiling on the base reward percentage.
pub const MAX_BASE_REWARD_PCT: u8 = 50;

/// Ceiling on the additional boost for LP rewards.
pub const MAX_LP_BOOST_PCT: u8 = 10;

impl Governance {
    /// The registry's invariant: both parameters respect their ceilings.
    pub open spec fn wf(self) -> bool {
        self.reward_percentage <= MAX_BASE_REWARD_PCT && self.lp_boost <= MAX_LP_BOOST_PCT
    }
}

/// Updates the adjustable economic parameters.
///
/// The request is rejected if either parameter exceeds its ceiling, and
/// rejected unless the externally supplied approval flag is already set. A
/// rejected request leaves the registry untouched; an accepted one replaces
/// exactly the two parameters.
pub fn update_reward_parameters(governance: &mut Governance, new_reward: u8, new_lp_boost: u8) -> (r:
    Result<(), CustomError>)
    ensures
        r is Ok <==> new_reward <= MAX_BASE_REWARD_PCT && new_lp_boost <= MAX_LP_BOOST_PCT && old(
            governance,
        ).dao_approved,
        new_reward > MAX_BASE_REWARD_PCT || new_lp_boost > MAX_LP_BOOST_PCT ==> r == Err::<
            (),
            CustomError,
        >(CustomError::InvalidRewardParameters),
        new_reward <= MAX_BASE_REWARD_PCT && new_lp_boost <= MAX_LP_BOOST_PCT && !old(
            governance,
        ).dao_approved ==> r == Err::<(), CustomError>(CustomError::GovernanceNotApproved),
        r is Ok ==> *final(governance) == (Governance {
            reward_percentage: new_reward,
            lp_boost: new_lp_boost,
            ..*old(governance)
        }),
        r is Err ==> *final(governance) == *old(governance),
        r is Ok ==> final(governance).wf(),
{
    if new_reward > MAX_BASE_REWARD_PCT {
        return Err(CustomError::InvalidRewardParameters);
    }
    if new_lp_boost > MAX_LP_BOOST_PCT {
        return Err(CustomError::InvalidRewardParameters);
    }
    if !governance.dao_approved {
        return Err(CustomError::GovernanceNotApproved);
    }
    governance.reward_percentage = new_reward;
    governance.lp_boost = new_lp_boost;
    Ok(())
}

} // verus!
