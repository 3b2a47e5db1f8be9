use vstd::prelude::*;

use crate::state::{AccountId, BackerData, PledgeEvent};

verus! {

/// Total value of a sequence of accepted pledges.
pub open spec fn pledged_total(h: Seq<PledgeEvent>) -> int
    decreases h.len(),
{
    if h.len() == 0 {
        0
    } else {
        pledged_total(h.drop_last()) + h.last().amount
    }
}

/// Total value pledged by one backer within a sequence of accepted pledges.
pub open spec fn pledged_by(h: Seq<PledgeEvent>, who: AccountId) -> int
    decreases h.len(),
{
    if h.len() == 0 {
        0
    } else {
        pledged_by(h.drop_last(), who)
            + (if h.last().backer == who {
                h.last().amount as int
            } else {
                0
            })
    }
}

/// Every pledge in the history moved a strictly positive amount.
pub open spec fn all_amounts_positive(h: Seq<PledgeEvent>) -> bool {
    forall|i: int| 0 <= i < h.len() ==> (#[trigger] h[i]).amount > 0
}

/// Total recorded for one backer in a list of backer records. On a list
/// whose backers are pairwise distinct this is the backer's record total,
/// or zero when the backer has no record.
pub open spec fn recorded_total(s: Seq<BackerData>, who: AccountId) -> int
    decreases s.len(),
{
    if s.len() == 0 {
        0
    } else {
        recorded_total(s.drop_last(), who)
            + (if s.last().backer == who {
                s.last().total_pledged as int
            } else {
                0
            })
    }
}

/// Appending one pledge raises the total by exactly its amount, and the
/// pledging backer's share by the same; every other backer's share is
/// untouched.
pub proof fn lemma_pledged_push(h: Seq<PledgeEvent>, e: PledgeEvent)
    ensures
        pledged_total(h.push(e)) == pledged_total(h) + e.amount,
        forall|who: AccountId|
            #[trigger] pledged_by(h.push(e), who) == pledged_by(h, who)
                + (if e.backer == who {
                    e.amount as int
                } else {
                    0
                }),
{
    assert(h.push(e).drop_last() =~= h);
}

/// No backer's share exceeds the total, and neither is negative.
pub proof fn lemma_pledged_by_bounds(h: Seq<PledgeEvent>, who: AccountId)
    ensures
        0 <= pledged_by(h, who) <= pledged_total(h),
    decreases h.len(),
{
    if h.len() > 0 {
        lemma_pledged_by_bounds(h.drop_last(), who);
    }
}

/// Appending a record raises exactly its backer's recorded share, by the
/// record's total.
pub proof fn lemma_recorded_push(s: Seq<BackerData>, d: BackerData)
    ensures
        forall|who: AccountId|
            #[trigger] recorded_total(s.push(d), who) == recorded_total(s, who)
                + (if d.backer == who {
                    d.total_pledged as int
                } else {
                    0
                }),
{
    assert(s.push(d).drop_last() =~= s);
}

/// Replacing the record at one index changes each backer's recorded share
/// by the difference between the new and the old record's contribution.
pub proof fn lemma_recorded_update(s: Seq<BackerData>, i: int, d: BackerData, who: AccountId)
    requires
        0 <= i < s.len(),
    ensures
        recorded_total(s.update(i, d), who) == recorded_total(s, who)
            - (if s[i].backer == who {
                s[i].total_pledged as int
            } else {
                0
            })
            + (if d.backer == who {
                d.total_pledged as int
            } else {
                0
            }),
    decreases s.len(),
{
    if i == s.len() - 1 {
        assert(s.update(i, d).drop_last() =~= s.drop_last());
        assert(s.update(i, d).last() == d);
    } else {
        lemma_recorded_update(s.drop_last(), i, d, who);
        assert(s.update(i, d).drop_last() =~= s.drop_last().update(i, d));
        assert(s.update(i, d).last() == s.last());
    }
}

/// On a list of pairwise-distinct backers, the recorded share of the backer
/// at index `i` is exactly that record's total.
pub proof fn lemma_recorded_at(s: Seq<BackerData>, i: int)
    requires
        0 <= i < s.len(),
        forall|p: int, q: int|
            0 <= p < s.len() && 0 <= q < s.len() && p != q
                ==> (#[trigger] s[p]).backer != (#[trigger] s[q]).backer,
    ensures
        recorded_total(s, s[i].backer) == s[i].total_pledged,
    decreases s.len(),
{
    if i == s.len() - 1 {
        lemma_recorded_absent(s.drop_last(), s[i].backer);
    } else {
        lemma_recorded_at(s.drop_last(), i);
    }
}

/// A backer with no record has a recorded share of zero.
pub proof fn lemma_recorded_absent(s: Seq<BackerData>, who: AccountId)
    requires
        forall|p: int| 0 <= p < s.len() ==> (#[trigger] s[p]).backer != who,
    ensures
        recorded_total(s, who) == 0,
    decreases s.len(),
{
    if s.len() > 0 {
        lemma_recorded_absent(s.drop_last(), who);
    }
}

} // verus!
