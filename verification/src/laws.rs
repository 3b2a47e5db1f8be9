use vstd::prelude::*;

use crate::errors::SparkError;
use crate::state::AccountId;
use crate::campaign::CampaignState;
use crate::tally::{lemma_recorded_at, pledged_by, pledged_total};

verus! {

/// Value conservation. In every well-formed campaign state — and every
/// state the operations of this crate produce is one — the escrow balance
/// equals the sum of all accepted pledge amounts until the withdrawal
/// empties it, and each backer record's total equals the sum of that
/// backer's own accepted pledges.
pub proof fn law_escrow_accounts_for_pledges(s: CampaignState)
    requires
        s.wf(),
    ensures
        !s.campaign.is_finished ==> s.escrow_balance as int == pledged_total(s.history@),
        s.campaign.is_finished ==> s.escrow_balance == 0,
        forall|i: int|
            0 <= i < s.backers@.len() ==> (#[trigger] s.backers@[i]).total_pledged as int
                == pledged_by(s.history@, s.backers@[i].backer),
{
    assert forall|i: int|
        0 <= i < s.backers@.len() implies (#[trigger] s.backers@[i]).total_pledged as int
        == pledged_by(s.history@, s.backers@[i].backer) by {
        lemma_recorded_at(s.backers@, i);
    }
}

/// A pledge of zero is always rejected with `PledgeAmountZero`, whatever
/// the time, the state and the backer's funds; the contract of `pledge`
/// then guarantees that nothing changed.
pub proof fn law_zero_pledge_rejected(s: CampaignState, now: i64, backer_funds: u64)
    ensures
        s.pledge_outcome(0, now, backer_funds) == Err::<(), SparkError>(
            SparkError::PledgeAmountZero,
        ),
{
}

/// A positive pledge at or after the deadline is always rejected with
/// `CampaignHasFinished`, whatever the balances; the contract of `pledge`
/// then guarantees that nothing changed. (A pledge of zero is rejected as
/// `PledgeAmountZero` first.)
pub proof fn law_late_pledge_rejected(s: CampaignState, amount: u64, now: i64, backer_funds: u64)
    requires
        amount > 0,
        now >= s.campaign.ending_at,
    ensures
        s.pledge_outcome(amount, now, backer_funds) == Err::<(), SparkError>(
            SparkError::CampaignHasFinished,
        ),
{
}

/// A withdrawal by the creator at or before the deadline is always rejected
/// with `CampaignStillRunning`, regardless of the escrow balance; the
/// contract of `withdraw` then guarantees that nothing changed.
pub proof fn law_early_withdraw_rejected(s: CampaignState, caller: AccountId, now: i64)
    requires
        caller == s.campaign.creator,
        now <= s.campaign.ending_at,
    ensures
        s.withdraw_outcome(caller, now) == Err::<u64, SparkError>(SparkError::CampaignStillRunning),
{
}

/// A withdrawal by the creator after the deadline of a not-yet-withdrawn
/// campaign whose escrow is below the funding goal is always rejected with
/// `CampaignFailedNotEnoughFunds`: the pledged funds stay locked in escrow.
pub proof fn law_underfunded_withdraw_rejected(s: CampaignState, caller: AccountId, now: i64)
    requires
        caller == s.campaign.creator,
        now > s.campaign.ending_at,
        !s.campaign.is_finished,
        s.escrow_balance < s.campaign.funding_goal,
    ensures
        s.withdraw_outcome(caller, now) == Err::<u64, SparkError>(
            SparkError::CampaignFailedNotEnoughFunds,
        ),
{
}

/// A withdrawal by anyone but the creator is always rejected with
/// `UnauthorizedCreator`, regardless of timing and balances.
pub proof fn law_unauthorized_withdraw_rejected(s: CampaignState, caller: AccountId, now: i64)
    requires
        caller != s.campaign.creator,
    ensures
        s.withdraw_outcome(caller, now) == Err::<u64, SparkError>(SparkError::UnauthorizedCreator),
{
}

/// Withdrawal succeeds at most once: on a finished campaign every further
/// withdrawal attempt fails, and a creator's well-timed attempt fails
/// exactly with `CampaignAlreadyFinished`. Since `withdraw` is the only
/// operation that finishes a campaign and it does so whenever it succeeds,
/// a campaign pays out at most once.
pub proof fn law_withdraw_at_most_once(s: CampaignState, caller: AccountId, now: i64)
    requires
        s.campaign.is_finished,
    ensures
        s.withdraw_outcome(caller, now) is Err,
        caller == s.campaign.creator && now > s.campaign.ending_at
            ==> s.withdraw_outcome(caller, now) == Err::<u64, SparkError>(
            SparkError::CampaignAlreadyFinished,
        ),
{
}

} // verus!
