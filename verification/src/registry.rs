use vstd::prelude::*;

use crate::campaign::{create_campaign, CampaignState};
use crate::errors::SparkError;
use crate::state::{AccountId, PledgeEvent};
use crate::tally::recorded_total;

verus! {

/// The durable store of campaigns, addressed by the composite key
/// `(seed, creator)` with create-if-absent semantics: creating a campaign
/// under a key that is already taken fails, and nothing is ever deleted.
pub struct CampaignRegistry {
    pub campaigns: Vec<CampaignState>,
}

impl CampaignRegistry {
    /// The campaign at index `i` carries the key `(seed, creator)`.
    pub open spec fn key_at(self, i: int, seed: u64, creator: AccountId) -> bool {
        &&& self.campaigns@[i].campaign.seed == seed
        &&& self.campaigns@[i].campaign.creator == creator
    }

    /// No two stored campaigns share a key.
    pub open spec fn keys_distinct(self) -> bool {
        forall|p: int, q: int|
            0 <= p < self.campaigns@.len() && 0 <= q < self.campaigns@.len() && p != q ==> !((
            #[trigger] self.campaigns@[p]).campaign.seed == (
            #[trigger] self.campaigns@[q]).campaign.seed && self.campaigns@[p].campaign.creator
                == self.campaigns@[q].campaign.creator)
    }

    /// Well-formedness: distinct keys, and every stored campaign state
    /// well-formed.
    pub open spec fn wf(self) -> bool {
        &&& self.keys_distinct()
        &&& forall|i: int| 0 <= i < self.campaigns@.len() ==> (#[trigger] self.campaigns@[i]).wf()
    }

    /// Some stored campaign carries the key `(seed, creator)`.
    pub open spec fn has_campaign(self, seed: u64, creator: AccountId) -> bool {
        exists|i: int| 0 <= i < self.campaigns@.len() && #[trigger] self.key_at(i, seed, creator)
    }

    /// The index of the campaign keyed `(seed, creator)`; meaningful only
    /// when `has_campaign` holds.
    pub open spec fn index_of(self, seed: u64, creator: AccountId) -> int {
        choose|i: int| 0 <= i < self.campaigns@.len() && #[trigger] self.key_at(i, seed, creator)
    }

    /// An empty registry.
    pub fn new() -> (r: CampaignRegistry)
        ensures
            r.wf(),
            r.campaigns@.len() == 0,
    {
        CampaignRegistry { campaigns: Vec::new() }
    }

    /// Index of the campaign keyed `(seed, creator)`, if one is stored.
    pub fn find_campaign(&self, seed: u64, creator: AccountId) -> (r: Option<usize>)
        requires
            self.wf(),
        ensures
            match r {
                Some(i) => {
                    &&& i < self.campaigns@.len()
                    &&& self.key_at(i as int, seed, creator)
                    &&& self.has_campaign(seed, creator)
                    &&& self.index_of(seed, creator) == i as int
                },
                None => !self.has_campaign(seed, creator),
            },
    {
        let mut i: usize = 0;
        while i < self.campaigns.len()
            invariant
                self.wf(),
                i <= self.campaigns@.len(),
                forall|j: int| 0 <= j < i ==> !self.key_at(j, seed, creator),
            decreases self.campaigns@.len() - i,
        {
            if self.campaigns[i].campaign.seed == seed && self.campaigns[i].campaign.creator
                == creator {
                proof {
                    assert(self.key_at(i as int, seed, creator));
                    let w = self.index_of(seed, creator);
                    assert(0 <= w < self.campaigns@.len() && self.key_at(w, seed, creator));
                    if w != i as int {
                        assert(!(self.campaigns@[w].campaign.seed == self.campaigns@[
                            i as int].campaign.seed && self.campaigns@[w].campaign.creator
                            == self.campaigns@[i as int].campaign.creator));
                    }
                }
                return Some(i);
            }
            i = i + 1;
        }
        None
    }

    /// Opens a campaign under the key `(seed, creator)`: fails with
    /// `CampaignAlreadyExists` when the key is taken, with the parameter
    /// errors of campaign creation when the deadline or the goal is
    /// invalid, and otherwise appends the fresh campaign and returns its
    /// index. A failed creation changes nothing.
    pub fn create_campaign(
        &mut self,
        seed: u64,
        creator: AccountId,
        now: i64,
        ending_at: i64,
        funding_goal: u64,
    ) -> (r: Result<usize, SparkError>)
        requires
            old(self).wf(),
        ensures
            final(self).wf(),
            old(self).has_campaign(seed, creator) ==> r == Err::<usize, SparkError>(
                SparkError::CampaignAlreadyExists,
            ),
            !old(self).has_campaign(seed, creator) && ending_at <= now ==> r == Err::<
                usize,
                SparkError,
            >(SparkError::EndingAtNotInFuture),
            !old(self).has_campaign(seed, creator) && ending_at > now && funding_goal == 0 ==> r
                == Err::<usize, SparkError>(SparkError::FundingGoalZero),
            !old(self).has_campaign(seed, creator) && ending_at > now && funding_goal > 0 ==> r
                == Ok::<usize, SparkError>(old(self).campaigns@.len() as usize),
            r is Err ==> final(self).campaigns@ == old(self).campaigns@,
            r is Ok ==> {
                &&& final(self).campaigns@.len() == old(self).campaigns@.len() + 1
                &&& forall|j: int|
                    0 <= j < old(self).campaigns@.len() ==> final(self).campaigns@[j] == old(
                        self,
                    ).campaigns@[j]
                &&& final(self).key_at(old(self).campaigns@.len() as int, seed, creator)
                &&& final(self).has_campaign(seed, creator)
                &&& ({
                    let c = final(self).campaigns@[old(self).campaigns@.len() as int];
                    &&& c.campaign.started_at == now
                    &&& c.campaign.ending_at == ending_at
                    &&& c.campaign.funding_goal == funding_goal
                    &&& !c.campaign.is_finished
                    &&& c.escrow_balance == 0
                    &&& c.backers@.len() == 0
                    &&& c.history@.len() == 0
                })
            },
    {
        match self.find_campaign(seed, creator) {
            Some(_) => Err(SparkError::CampaignAlreadyExists),
            None => {
                match create_campaign(seed, creator, now, ending_at, funding_goal) {
                    Err(e) => Err(e),
                    Ok(fresh) => {
                        let idx = self.campaigns.len();
                        self.campaigns.push(fresh);
                        proof {
                            let prior = old(self).campaigns@;
                            assert(self.campaigns@ == prior.push(fresh));
                            assert(self.key_at(idx as int, seed, creator));
                            assert forall|j: int| 0 <= j < prior.len() implies !old(self).key_at(
                                j,
                                seed,
                                creator,
                            ) by {
                                if old(self).key_at(j, seed, creator) {
                                    assert(old(self).has_campaign(seed, creator));
                                }
                            }
                            assert forall|i: int|
                                0 <= i < self.campaigns@.len() implies (
                            #[trigger] self.campaigns@[i]).wf() by {
                                if i < prior.len() {
                                    assert(self.campaigns@[i] == prior[i]);
                                    assert(old(self).campaigns@[i].wf());
                                }
                            }
                            assert(self.keys_distinct()) by {
                                assert forall|p: int, q: int|
                                    0 <= p < self.campaigns@.len() && 0 <= q
                                        < self.campaigns@.len() && p != q implies !((
                                #[trigger] self.campaigns@[p]).campaign.seed == (
                                #[trigger] self.campaigns@[q]).campaign.seed
                                    && self.campaigns@[p].campaign.creator
                                    == self.campaigns@[q].campaign.creator) by {
                                    if p < prior.len() && q < prior.len() {
                                        assert(old(self).campaigns@[p] == self.campaigns@[p]);
                                        assert(old(self).campaigns@[q] == self.campaigns@[q]);
                                    } else if p < prior.len() {
                                        assert(!old(self).key_at(p, seed, creator));
                                    } else if q < prior.len() {
                                        assert(!old(self).key_at(q, seed, creator));
                                    }
                                }
                            }
                        }
                        Ok(idx)
                    },
                }
            },
        }
    }

    /// Routes a pledge to the campaign keyed `(seed, creator)`: fails with
    /// `CampaignNotFound` when no such campaign is stored, and otherwise
    /// behaves exactly as a pledge on that campaign, leaving every other
    /// campaign untouched. The balance bound is a machine limit, as on
    /// `CampaignState::pledge`.
    pub fn pledge_to(
        &mut self,
        seed: u64,
        creator: AccountId,
        backer: AccountId,
        amount: u64,
        now: i64,
        backer_funds: &mut u64,
    ) -> (r: Result<(), SparkError>)
        requires
            old(self).wf(),
            forall|i: int|
                0 <= i < old(self).campaigns@.len() ==> (
                #[trigger] old(self).campaigns@[i]).escrow_balance + amount <= u64::MAX,
        ensures
            final(self).wf(),
            final(self).campaigns@.len() == old(self).campaigns@.len(),
            !old(self).has_campaign(seed, creator) ==> r == Err::<(), SparkError>(
                SparkError::CampaignNotFound,
            ) && final(self).campaigns@ == old(self).campaigns@ && *final(backer_funds) == *old(
                backer_funds,
            ),
            old(self).has_campaign(seed, creator) ==> ({
                let i = old(self).index_of(seed, creator);
                let c0 = old(self).campaigns@[i];
                &&& r == c0.pledge_outcome(amount, now, *old(backer_funds))
                &&& (r is Err ==> final(self).campaigns@ == old(self).campaigns@ && *final(backer_funds)
                    == *old(backer_funds))
                &&& (r is Ok ==> ({
                    let c1 = final(self).campaigns@[i];
                    &&& *final(backer_funds) == *old(backer_funds) - amount
                    &&& c1.campaign == c0.campaign
                    &&& c1.escrow_balance == c0.escrow_balance + amount
                    &&& c1.history@ == c0.history@.push(PledgeEvent { backer, amount })
                    &&& forall|who: AccountId|
                        #[trigger] recorded_total(c1.backers@, who) == recorded_total(
                            c0.backers@,
                            who,
                        ) + (if who == backer {
                            amount as int
                        } else {
                            0
                        })
                    &&& forall|j: int|
                        0 <= j < old(self).campaigns@.len() && j != i ==> final(self).campaigns@[j] == old(self).campaigns@[j]
                }))
            }),
    {
        let idx = match self.find_campaign(seed, creator) {
            None => {
                return Err(SparkError::CampaignNotFound);
            },
            Some(i) => i,
        };
        let ghost prior = self.campaigns@;
        let c = &mut self.campaigns[idx];
        let r = c.pledge(backer, amount, now, backer_funds);
        proof {
            let i = idx as int;
            assert(self.campaigns@ == prior.update(i, self.campaigns@[i]));
            assert(self.campaigns@[i].campaign == prior[i].campaign);
            assert forall|p: int|
                0 <= p < self.campaigns@.len() implies (#[trigger] self.campaigns@[p]).wf() by {
                if p != i {
                    assert(self.campaigns@[p] == prior[p]);
                }
            }
            assert forall|p: int, q: int|
                0 <= p < self.campaigns@.len() && 0 <= q < self.campaigns@.len() && p
                    != q implies !((#[trigger] self.campaigns@[p]).campaign.seed == (
            #[trigger] self.campaigns@[q]).campaign.seed && self.campaigns@[p].campaign.creator
                == self.campaigns@[q].campaign.creator) by {
                assert(self.campaigns@[p].campaign == prior[p].campaign);
                assert(self.campaigns@[q].campaign == prior[q].campaign);
            }
            if r is Err {
                assert(self.campaigns@ =~= prior);
            }
        }
        r
    }

    /// Routes a withdrawal to the campaign keyed `(seed, creator)`: fails
    /// with `CampaignNotFound` when no such campaign is stored, and
    /// otherwise behaves exactly as a withdrawal on that campaign, leaving
    /// every other campaign untouched. The balance bound is a machine
    /// limit, as on `CampaignState::withdraw`.
    pub fn withdraw_from(
        &mut self,
        seed: u64,
        creator: AccountId,
        caller: AccountId,
        now: i64,
        creator_funds: &mut u64,
    ) -> (r: Result<u64, SparkError>)
        requires
            old(self).wf(),
            forall|i: int|
                0 <= i < old(self).campaigns@.len() ==> *old(creator_funds) + (
                #[trigger] old(self).campaigns@[i]).escrow_balance <= u64::MAX,
        ensures
            final(self).wf(),
            final(self).campaigns@.len() == old(self).campaigns@.len(),
            !old(self).has_campaign(seed, creator) ==> r == Err::<u64, SparkError>(
                SparkError::CampaignNotFound,
            ) && final(self).campaigns@ == old(self).campaigns@ && *final(creator_funds) == *old(
                creator_funds,
            ),
            old(self).has_campaign(seed, creator) ==> ({
                let i = old(self).index_of(seed, creator);
                let c0 = old(self).campaigns@[i];
                &&& r == c0.withdraw_outcome(caller, now)
                &&& (r is Err ==> final(self).campaigns@ == old(self).campaigns@ && *final(creator_funds)
                    == *old(creator_funds))
                &&& (r is Ok ==> ({
                    let c1 = final(self).campaigns@[i];
                    &&& r->Ok_0 == c0.escrow_balance
                    &&& *final(creator_funds) == *old(creator_funds) + c0.escrow_balance
                    &&& c1.campaign.is_finished
                    &&& c1.campaign.seed == c0.campaign.seed
                    &&& c1.campaign.creator == c0.campaign.creator
                    &&& c1.escrow_balance == 0
                    &&& c1.backers@ == c0.backers@
                    &&& c1.history@ == c0.history@
                    &&& forall|j: int|
                        0 <= j < old(self).campaigns@.len() && j != i ==> final(self).campaigns@[j] == old(self).campaigns@[j]
                }))
            }),
    {
        let idx = match self.find_campaign(seed, creator) {
            None => {
                return Err(SparkError::CampaignNotFound);
            },
            Some(i) => i,
        };
        let ghost prior = self.campaigns@;
        let c = &mut self.campaigns[idx];
        let r = c.withdraw(caller, now, creator_funds);
        proof {
            let i = idx as int;
            assert(self.campaigns@ == prior.update(i, self.campaigns@[i]));
            assert(self.campaigns@[i].campaign.seed == prior[i].campaign.seed);
            assert(self.campaigns@[i].campaign.creator == prior[i].campaign.creator);
            assert forall|p: int|
                0 <= p < self.campaigns@.len() implies (#[trigger] self.campaigns@[p]).wf() by {
                if p != i {
                    assert(self.campaigns@[p] == prior[p]);
                }
            }
            assert forall|p: int, q: int|
                0 <= p < self.campaigns@.len() && 0 <= q < self.campaigns@.len() && p
                    != q implies !((#[trigger] self.campaigns@[p]).campaign.seed == (
            #[trigger] self.campaigns@[q]).campaign.seed && self.campaigns@[p].campaign.creator
                == self.campaigns@[q].campaign.creator) by {
                assert(self.campaigns@[p].campaign.seed == prior[p].campaign.seed);
                assert(self.campaigns@[p].campaign.creator == prior[p].campaign.creator);
                assert(self.campaigns@[q].campaign.seed == prior[q].campaign.seed);
                assert(self.campaigns@[q].campaign.creator == prior[q].campaign.creator);
            }
            if r is Err {
                assert(self.campaigns@ =~= prior);
            }
        }
        r
    }
}

} // verus!
