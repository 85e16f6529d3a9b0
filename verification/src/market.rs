use vstd::prelude::*;

verus! {

/// The settled state of a market's question: pending while the market is
/// open, then the side that won.
#[derive(Clone, Copy, Debug, PartialEq, Eq, Structural)]
pub enum Outcome {
    Pending,
    Yes,
    No,
}

/// A single yes/no question with an expiry and two pooled stakes.
///
/// Identities (`id`, `creator`) are opaque handles allocated by the outside
/// storage and authentication collaborators; this crate only stores and
/// copies them.
#[derive(Debug)]
pub struct Market {
    /// Identity under which the storage collaborator keeps this record.
    pub id: u64,
    /// Identity of the actor who created the market.
    pub creator: u64,
    /// The yes/no question the market settles.
    pub question: String,
    /// Timestamp at which betting closes and resolution opens.
    pub expires_at: i64,
    /// Whether the market has been resolved. Holds exactly when `outcome`
    /// is no longer `Pending`.
    pub resolved: bool,
    /// The settled outcome, `Pending` while the market is open.
    pub outcome: Outcome,
    /// Total staked on the yes side. Non-decreasing until resolution,
    /// frozen thereafter.
    pub total_yes_amount: u64,
    /// Total staked on the no side. Non-decreasing until resolution,
    /// frozen thereafter.
    pub total_no_amount: u64,
    /// Timestamp at which the market was created.
    pub created_at: i64,
}

/// A market is well formed when the resolved flag agrees with the outcome:
/// the outcome is `Pending` exactly while the market is unresolved.
pub open spec fn market_wf(m: Market) -> bool {
    m.resolved <==> m.outcome != Outcome::Pending
}

/// The total staked on both sides together, as a mathematical integer.
pub open spec fn pool_total(m: Market) -> int {
    m.total_yes_amount + m.total_no_amount
}

/// The stake standing on the side that the market's outcome declares the
/// winner: the pool that a payout is shared out of.
pub open spec fn winning_pool(m: Market) -> int {
    if m.outcome == Outcome::Yes {
        m.total_yes_amount as int
    } else {
        m.total_no_amount as int
    }
}

/// Opens a new market over `question`, expiring at `expires_at`.
///
/// `id` is the record identity the storage collaborator allocated and `now`
/// is the clock collaborator's current time. No relation between
/// `expires_at` and `now` is enforced: a market may be created already
/// expired, and then can only be resolved.
pub fn create_market(id: u64, creator: u64, question: String, expires_at: i64, now: i64) -> (m: Market)
    ensures
        m.id == id,
        m.creator == creator,
        m.question@ == question@,
        m.expires_at == expires_at,
        !m.resolved,
        m.outcome == Outcome::Pending,
        m.total_yes_amount == 0,
        m.total_no_amount == 0,
        m.created_at == now,
        market_wf(m),
        pool_total(m) == 0,
{
    Market {
        id,
        creator,
        question,
        expires_at,
        resolved: false,
        outcome: Outcome::Pending,
        total_yes_amount: 0,
        total_no_amount: 0,
        created_at: now,
    }
}

} // verus!
