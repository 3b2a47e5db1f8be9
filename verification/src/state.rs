use vstd::prelude::*;

verus! {

/// The identity of an account known to the host ledger: a campaign creator,
/// a backer, or any other party. The host's identity space is opaque here;
/// all the protocol ever does with an identity is compare it for equality,
/// so a plain integer stands for it.
#[derive(Clone, Copy, Debug, PartialEq, Eq, Structural)]
pub struct AccountId {
    pub id: u64,
}

/// One fundraising effort.
///
/// `seed`, `creator`, `started_at`, `ending_at` and `funding_goal` are fixed
/// at creation; only `is_finished` ever changes, and only from `false` to
/// `true`, when the creator withdraws the escrow. A campaign is uniquely
/// addressed by the pair `(seed, creator)`.
#[derive(Clone, Copy, Debug, PartialEq, Eq, Structural)]
pub struct Campaign {
    /// Caller-chosen disambiguator, part of the campaign's identity.
    pub seed: u64,
    /// The identity that created the campaign and alone may withdraw.
    pub creator: AccountId,
    /// Creation time, in seconds since the epoch.
    pub started_at: i64,
    /// Deadline: pledges are accepted strictly before it, withdrawal
    /// strictly after it.
    pub ending_at: i64,
    /// Minimum escrow balance, in the smallest value unit, that a
    /// withdrawal requires.
    pub funding_goal: u64,
    /// True exactly once the escrow has been withdrawn.
    pub is_finished: bool,
}

/// Cumulative contribution of one backer to one campaign. Created on the
/// backer's first accepted pledge and never deleted; `total_pledged` only
/// grows.
#[derive(Clone, Copy, Debug, PartialEq, Eq, Structural)]
pub struct BackerData {
    /// The contributing identity.
    pub backer: AccountId,
    /// Sum of every pledge amount accepted from this backer.
    pub total_pledged: u64,
}

/// One accepted pledge, as recorded in a campaign's ghost history: who
/// pledged, and how much.
#[derive(Clone, Copy, Debug, PartialEq, Eq, Structural)]
pub struct PledgeEvent {
    pub backer: AccountId,
    pub amount: u64,
}

} // verus!
