use multi_yield::errors::CustomError;
use multi_yield::governance::update_reward_parameters;
use multi_yield::protocol::initialize;
use multi_yield::protocol::insurance_pool_contribution;
use multi_yield::state::Governance;

fn approved() -> Governance {
    Governance { total_votes: 3, reward_percentage: 5, lp_boost: 1, dao_approved: true }
}

#[test]
fn initialize_sets_global_state() {
    let g = initialize(11, 254);
    assert_eq!(g.mint, 11);
    assert_eq!(g.bump, 254);
    assert_eq!(g.protocol_wide_volume, 0);
}

#[test]
fn reject_reward_above_ceiling() {
    let mut gov = approved();
    let before = gov;
    let r = update_reward_parameters(&mut gov, 51, 5);
    assert_eq!(r, Err(CustomError::InvalidRewardParameters));
    assert_eq!(gov, before);
}

#[test]
fn reject_lp_boost_above_ceiling() {
    let mut gov = approved();
    let before = gov;
    let r = update_reward_parameters(&mut gov, 20, 11);
    assert_eq!(r, Err(CustomError::InvalidRewardParameters));
    assert_eq!(gov, before);
}

#[test]
fn reject_unapproved_update() {
    let mut gov = Governance { dao_approved: false, ..approved() };
    let before = gov;
    let r = update_reward_parameters(&mut gov, 20, 5);
    assert_eq!(r, Err(CustomError::GovernanceNotApproved));
    assert_eq!(gov, before);
}

#[test]
fn accept_update_at_ceilings() {
    let mut gov = approved();
    update_reward_parameters(&mut gov, 50, 10).unwrap();
    assert_eq!(gov.reward_percentage, 50);
    assert_eq!(gov.lp_boost, 10);
    assert!(gov.dao_approved);
    assert_eq!(gov.total_votes, 3);
}

#[test]
fn contribution_moves_the_whole_amount() {
    let t = insurance_pool_contribution(7, 99, 1234);
    assert_eq!(t.source, 7);
    assert_eq!(t.destination, 99);
    assert_eq!(t.amount, 1234);
}

#[test]
fn error_messages() {
    assert_eq!(CustomError::FlashLoanDetected.message(), "Flash Loan Attack Detected!");
    assert_eq!(CustomError::InvalidTradePrice.message(), "Trade Price Out of Expected Range");
    assert_eq!(CustomError::GovernanceNotApproved.message(), "Governance not approved");
    assert_eq!(
        CustomError::InsufficientUniqueTraders.message(),
        "Insufficient unique traders for anti-flashbot"
    );
}
