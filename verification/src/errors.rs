use vstd::prelude::*;

verus! {

/// Every way an operation of the protocol can fail.
///
/// Each operation checks its guards in a fixed order and reports the first
/// one that fails; a failed operation has no effect at all.
#[derive(Clone, Copy, Debug, PartialEq, Eq, Structural)]
pub enum SparkError {
    /// A pledge of zero value was attempted.
    PledgeAmountZero,
    /// A pledge arrived at or after the campaign's deadline, or the campaign
    /// was already withdrawn from.
    CampaignHasFinished,
    /// The backer's spendable balance does not cover the pledged amount.
    InsufficientBackerFunds,
    /// A withdrawal was attempted by an identity other than the creator.
    UnauthorizedCreator,
    /// A withdrawal was attempted at or before the campaign's deadline.
    CampaignStillRunning,
    /// A withdrawal was attempted on a campaign that was already withdrawn
    /// from.
    CampaignAlreadyFinished,
    /// The escrow balance is below the funding goal.
    CampaignFailedNotEnoughFunds,
    /// A campaign was created with a deadline not after its creation time.
    EndingAtNotInFuture,
    /// A campaign was created with a funding goal of zero.
    FundingGoalZero,
    /// A campaign with the same seed and creator already exists.
    CampaignAlreadyExists,
    /// No campaign with the given seed and creator exists.
    CampaignNotFound,
}

} // verus!
