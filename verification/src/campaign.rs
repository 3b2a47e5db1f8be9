use vstd::prelude::*;

use crate::errors::SparkError;
use crate::state::{AccountId, BackerData, Campaign, PledgeEvent};
use crate::tally::{
    all_amounts_positive, lemma_pledged_by_bounds, lemma_pledged_push, lemma_recorded_absent,
    lemma_recorded_at, lemma_recorded_push, lemma_recorded_update, pledged_by, pledged_total,
    recorded_total,
};

verus! {

/// One campaign together with its escrow balance and its per-backer
/// contribution records, the unit on which pledges and withdrawal act.
///
/// The ghost `history` lists every accepted pledge in order; the
/// well-formedness invariant ties the escrow balance and every record total
/// to it, which is exactly the protocol's value-conservation guarantee.
pub struct CampaignState {
    pub campaign: Campaign,
    /// Value currently held in escrow for this campaign.
    pub escrow_balance: u64,
    /// One record per backer that has ever pledged, pairwise distinct.
    pub backers: Vec<BackerData>,
    /// Every pledge accepted so far, in order of acceptance.
    pub history: Ghost<Seq<PledgeEvent>>,
}

impl CampaignState {
    /// The backers of the records are pairwise distinct: at most one record
    /// per backer.
    pub open spec fn backers_distinct(self) -> bool {
        forall|p: int, q: int|
            0 <= p < self.backers@.len() && 0 <= q < self.backers@.len() && p != q
                ==> (#[trigger] self.backers@[p]).backer != (#[trigger] self.backers@[q]).backer
    }

    /// Well-formedness: every state reachable through the operations of
    /// this module satisfies it.
    ///
    /// - the deadline lies after the creation time and the goal is positive
    ///   (both enforced at creation);
    /// - every accepted pledge moved a positive amount;
    /// - each backer's record total equals the sum of that backer's
    ///   accepted pledges;
    /// - until withdrawal the escrow balance equals the sum of all accepted
    ///   pledges; after it, the escrow is empty;
    /// - the sum of all accepted pledges fits the balance type.
    pub open spec fn wf(self) -> bool {
        &&& self.campaign.started_at < self.campaign.ending_at
        &&& self.campaign.funding_goal > 0
        &&& self.backers_distinct()
        &&& all_amounts_positive(self.history@)
        &&& forall|who: AccountId|
            #[trigger] recorded_total(self.backers@, who) == pledged_by(self.history@, who)
        &&& if self.campaign.is_finished {
            self.escrow_balance == 0
        } else {
            self.escrow_balance as int == pledged_total(self.history@)
        }
        &&& pledged_total(self.history@) <= u64::MAX
    }

    /// `who` already has a contribution record.
    pub open spec fn has_backer(self, who: AccountId) -> bool {
        exists|i: int|
            0 <= i < self.backers@.len() && (#[trigger] self.backers@[i]).backer == who
    }

    /// The outcome that a pledge of `amount` at time `now`, by a backer
    /// holding `backer_funds`, is owed on this state: the first failing
    /// guard's error, or acceptance.
    pub open spec fn pledge_outcome(self, amount: u64, now: i64, backer_funds: u64) -> Result<
        (),
        SparkError,
    > {
        if amount == 0 {
            Err(SparkError::PledgeAmountZero)
        } else if self.campaign.is_finished {
            Err(SparkError::CampaignHasFinished)
        } else if now >= self.campaign.ending_at {
            Err(SparkError::CampaignHasFinished)
        } else if backer_funds < amount {
            Err(SparkError::InsufficientBackerFunds)
        } else {
            Ok(())
        }
    }

    /// The outcome a withdrawal by `caller` at time `now` is owed on this
    /// state: the first failing guard's error, or the full escrow balance.
    pub open spec fn withdraw_outcome(self, caller: AccountId, now: i64) -> Result<
        u64,
        SparkError,
    > {
        if caller != self.campaign.creator {
            Err(SparkError::UnauthorizedCreator)
        } else if now <= self.campaign.ending_at {
            Err(SparkError::CampaignStillRunning)
        } else if self.campaign.is_finished {
            Err(SparkError::CampaignAlreadyFinished)
        } else if self.escrow_balance < self.campaign.funding_goal {
            Err(SparkError::CampaignFailedNotEnoughFunds)
        } else {
            Ok(self.escrow_balance)
        }
    }

    /// Index of `who`'s record among the backer records, if there is one.
    fn find_backer(&self, who: AccountId) -> (r: Option<usize>)
        ensures
            match r {
                Some(i) => i < self.backers@.len() && self.backers@[i as int].backer == who,
                None => forall|j: int|
                    0 <= j < self.backers@.len() ==> (#[trigger] self.backers@[j]).backer != who,
            },
    {
        let mut i: usize = 0;
        while i < self.backers.len()
            invariant
                i <= self.backers@.len(),
                forall|j: int| 0 <= j < i ==> (#[trigger] self.backers@[j]).backer != who,
            decreases self.backers@.len() - i,
        {
            if self.backers[i].backer == who {
                return Some(i);
            }
            i = i + 1;
        }
        None
    }

    /// Accepts a pledge of `amount` from `backer` at time `now`, moving the
    /// amount from the backer's spendable balance into the escrow and
    /// raising the backer's record total (creating the record on a first
    /// pledge); or fails with the first failing guard's error and changes
    /// nothing.
    ///
    /// The guards, in order: the amount must be positive, the campaign must
    /// be unfinished and its deadline still ahead, and the backer's balance
    /// must cover the amount. The bound on the escrow balance is a machine
    /// limit: the pooled value must fit the balance type.
    pub fn pledge(
        &mut self,
        backer: AccountId,
        amount: u64,
        now: i64,
        backer_funds: &mut u64,
    ) -> (r: Result<(), SparkError>)
        requires
            old(self).wf(),
            old(self).escrow_balance + amount <= u64::MAX,
        ensures
            final(self).wf(),
            r == old(self).pledge_outcome(amount, now, *old(backer_funds)),
            r is Err ==> *final(self) == *old(self) && *final(backer_funds) == *old(
                backer_funds,
            ),
            r is Ok ==> {
                &&& *final(backer_funds) == *old(backer_funds) - amount
                &&& final(self).campaign == old(self).campaign
                &&& final(self).escrow_balance == old(self).escrow_balance + amount
                &&& final(self).history@ == old(self).history@.push(
                    PledgeEvent { backer, amount },
                )
                &&& final(self).has_backer(backer)
                &&& final(self).backers@.len() == old(self).backers@.len() + (if old(
                    self,
                ).has_backer(backer) {
                    0int
                } else {
                    1int
                })
                &&& forall|who: AccountId|
                    #[trigger] recorded_total(final(self).backers@, who) == recorded_total(
                        old(self).backers@,
                        who,
                    ) + (if who == backer {
                        amount as int
                    } else {
                        0
                    })
            },
    {
        if amount == 0 {
            return Err(SparkError::PledgeAmountZero);
        }
        if self.campaign.is_finished {
            return Err(SparkError::CampaignHasFinished);
        }
        if now >= self.campaign.ending_at {
            return Err(SparkError::CampaignHasFinished);
        }
        if *backer_funds < amount {
            return Err(SparkError::InsufficientBackerFunds);
        }
        let ghost ev = PledgeEvent { backer, amount };
        proof {
            lemma_pledged_push(self.history@, ev);
            lemma_pledged_by_bounds(self.history@, backer);
        }
        *backer_funds = *backer_funds - amount;
        self.escrow_balance = self.escrow_balance + amount;
        match self.find_backer(backer) {
            Some(i) => {
                proof {
                    lemma_recorded_at(self.backers@, i as int);
                }
                let raised = BackerData {
                    backer,
                    total_pledged: self.backers[i].total_pledged + amount,
                };
                let ghost before = self.backers@;
                self.backers[i] = raised;
                proof {
                    assert(before[i as int].backer == backer);
                    assert(old(self).has_backer(backer));
                    assert(self.backers@[i as int] == raised);
                    assert(self.has_backer(backer));
                    assert forall|who: AccountId|
                        #[trigger] recorded_total(self.backers@, who) == recorded_total(
                            before,
                            who,
                        ) + (if who == backer {
                            amount as int
                        } else {
                            0
                        }) by {
                        lemma_recorded_update(before, i as int, raised, who);
                    }
                }
            },
            None => {
                let fresh = BackerData { backer, total_pledged: amount };
                let ghost before = self.backers@;
                proof {
                    lemma_recorded_absent(before, backer);
                    lemma_recorded_push(before, fresh);
                    assert(!old(self).has_backer(backer));
                }
                self.backers.push(fresh);
                proof {
                    assert(self.backers@[before.len() as int] == fresh);
                    assert(self.has_backer(backer));
                }
            },
        }
        self.history = Ghost(self.history@.push(ev));
        Ok(())
    }

    /// Pays the whole escrow out to the creator at time `now`: the caller
    /// must be the creator, the deadline must have passed, the campaign
    /// must not have been withdrawn from before, and the escrow must have
    /// reached the funding goal. On success the full escrow balance moves
    /// to `creator_funds`, the escrow empties, and the campaign is finished
    /// for good; on failure nothing changes.
    ///
    /// The bound on `creator_funds` is a machine limit: the credited
    /// balance must fit the balance type.
    pub fn withdraw(&mut self, caller: AccountId, now: i64, creator_funds: &mut u64) -> (r: Result<
        u64,
        SparkError,
    >)
        requires
            old(self).wf(),
            *old(creator_funds) + old(self).escrow_balance <= u64::MAX,
        ensures
            final(self).wf(),
            r == old(self).withdraw_outcome(caller, now),
            r is Err ==> *final(self) == *old(self) && *final(creator_funds) == *old(
                creator_funds,
            ),
            r is Ok ==> {
                &&& r->Ok_0 == old(self).escrow_balance
                &&& *final(creator_funds) == *old(creator_funds) + old(self).escrow_balance
                &&& final(self).campaign == (Campaign {
                    is_finished: true,
                    ..old(self).campaign
                })
                &&& final(self).escrow_balance == 0
                &&& final(self).backers@ == old(self).backers@
                &&& final(self).history@ == old(self).history@
            },
    {
        if caller != self.campaign.creator {
            return Err(SparkError::UnauthorizedCreator);
        }
        if now <= self.campaign.ending_at {
            return Err(SparkError::CampaignStillRunning);
        }
        if self.campaign.is_finished {
            return Err(SparkError::CampaignAlreadyFinished);
        }
        if self.escrow_balance < self.campaign.funding_goal {
            return Err(SparkError::CampaignFailedNotEnoughFunds);
        }
        let paid = self.escrow_balance;
        *creator_funds = *creator_funds + paid;
        self.escrow_balance = 0;
        self.campaign.is_finished = true;
        Ok(paid)
    }
}

/// Opens a campaign: the deadline must lie strictly after the creation time
/// `now` and the funding goal must be positive; the new campaign starts
/// unfinished, with an empty escrow and no backer records.
///
/// Uniqueness of `(seed, creator)` is the concern of the registry that
/// stores the result, not of this constructor.
pub fn create_campaign(
    seed: u64,
    creator: AccountId,
    now: i64,
    ending_at: i64,
    funding_goal: u64,
) -> (r: Result<CampaignState, SparkError>)
    ensures
        ending_at <= now ==> r == Err::<CampaignState, SparkError>(SparkError::EndingAtNotInFuture),
        ending_at > now && funding_goal == 0 ==> r == Err::<CampaignState, SparkError>(
            SparkError::FundingGoalZero,
        ),
        ending_at > now && funding_goal > 0 ==> {
            &&& r is Ok
            &&& r->Ok_0.wf()
            &&& r->Ok_0.campaign == (Campaign {
                seed,
                creator,
                started_at: now,
                ending_at,
                funding_goal,
                is_finished: false,
            })
            &&& r->Ok_0.escrow_balance == 0
            &&& r->Ok_0.backers@ == Seq::<BackerData>::empty()
            &&& r->Ok_0.history@ == Seq::<PledgeEvent>::empty()
        },
{
    if ending_at <= now {
        return Err(SparkError::EndingAtNotInFuture);
    }
    if funding_goal == 0 {
        return Err(SparkError::FundingGoalZero);
    }
    let s = CampaignState {
        campaign: Campaign {
            seed,
            creator,
            started_at: now,
            ending_at,
            funding_goal,
            is_finished: false,
        },
        escrow_balance: 0,
        backers: Vec::new(),
        history: Ghost(Seq::empty()),
    };
    Ok(s)
}

} // verus!
