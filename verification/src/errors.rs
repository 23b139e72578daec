use vstd::prelude::*;

verus! {

/// Every reason for which the engine rejects a request.
///
/// Validation errors and arithmetic errors alike reject the whole request
/// with zero state mutation; the caller sees exactly one named reason.
#[derive(Clone, Copy, Debug, PartialEq, Eq, Structural)]
pub enum CustomError {
    /// A second trade by the same principal inside the minimum hold window.
    FlashLoanDetected,
    /// The submitted trade price lies outside the oracle price band.
    InvalidTradePrice,
    /// Early unstake is not allowed.
    EarlyUnstakePenalty,
    /// Nothing to claim in a vesting schedule.
    NothingToClaim,
    /// A governance parameter exceeds its ceiling.
    InvalidRewardParameters,
    /// The price feed could not be loaded or decoded.
    OracleError,
    /// The oracle reported a non-positive price.
    NegativePythPrice,
    /// A signed price could not be converted without losing information.
    ConversionError,
    /// A checked addition or multiplication overflowed.
    ArithmeticOverflow,
    /// Too few distinct traders were active for the trade to count.
    InsufficientUniqueTraders,
    /// The collateral's floor price is at or below the staking threshold.
    NFTFloorTooLow,
    /// The governance approval flag is not set.
    GovernanceNotApproved,
}

impl CustomError {
    /// A human-readable description of the failure reason.
    pub fn message(&self) -> &'static str {
        match self {
            CustomError::FlashLoanDetected => "Flash Loan Attack Detected!",
            CustomError::InvalidTradePrice => "Trade Price Out of Expected Range",
            CustomError::EarlyUnstakePenalty => "Early unstake is not allowed",
            CustomError::NothingToClaim => "Nothing to claim in vesting schedule",
            CustomError::InvalidRewardParameters => "Invalid reward or LP boost parameters",
            CustomError::OracleError => "Oracle error occurred",
            CustomError::NegativePythPrice => "Pyth price feed is negative",
            CustomError::ConversionError => "Failed converting i64 to u64",
            CustomError::ArithmeticOverflow => "Overflow in checked arithmetic",
            CustomError::InsufficientUniqueTraders => "Insufficient unique traders for anti-flashbot",
            CustomError::NFTFloorTooLow => "NFT floor price too low to stake",
            CustomError::GovernanceNotApproved => "Governance not approved",
        }
    }
}

} // verus!
