use vstd::prelude::*;

use crate::errors::ErrorCode;
use crate::market::{Market, market_wf, pool_total};

verus! {

/// A stake placed on one side of a market while it was open. Immutable once
/// created, except for the `claimed` marker that a successful payout sets.
#[derive(Clone, Copy, Debug, PartialEq, Eq, Structural)]
pub struct Bet {
    /// Identity of the market the bet sits on.
    pub market: u64,
    /// Identity of the actor who placed the bet.
    pub user: u64,
    /// The side staked on: `true` for yes, `false` for no.
    pub position: bool,
    /// The staked amount; always positive.
    pub amount: u64,
    /// Timestamp at which the bet was placed.
    pub created_at: i64,
    /// Set exactly when winnings have been paid out for this bet.
    pub claimed: bool,
}

/// The stake already standing on the side that `position` names.
pub open spec fn side_total(m: Market, position: bool) -> int {
    if position {
        m.total_yes_amount as int
    } else {
        m.total_no_amount as int
    }
}

/// The first rule a bet request breaks on market `m`, in the order the
/// checks are made; `None` when the bet is accepted.
pub open spec fn place_bet_error(m: Market, position: bool, amount: u64, now: i64) -> Option<ErrorCode> {
    if m.resolved {
        Some(ErrorCode::MarketResolved)
    } else if now >= m.expires_at {
        Some(ErrorCode::MarketExpired)
    } else if amount == 0 {
        Some(ErrorCode::InvalidAmount)
    } else if side_total(m, position) + amount > u64::MAX {
        Some(ErrorCode::Overflow)
    } else {
        None
    }
}

/// The market after an accepted bet: the amount added to the chosen side,
/// every other field kept.
pub open spec fn market_after_bet(m: Market, position: bool, amount: u64) -> Market {
    if position {
        Market { total_yes_amount: (m.total_yes_amount + amount) as u64, ..m }
    } else {
        Market { total_no_amount: (m.total_no_amount + amount) as u64, ..m }
    }
}

/// The record an accepted bet creates.
pub open spec fn new_bet(m: Market, bettor: u64, position: bool, amount: u64, now: i64) -> Bet {
    Bet { market: m.id, user: bettor, position, amount, created_at: now, claimed: false }
}

/// Stakes `amount` on the `position` side of an open market.
///
/// `bettor` is the authenticated caller's identity and `now` the clock
/// collaborator's current time. On success the bet record is returned and
/// the market's side total grows by `amount`, atomically; on any error the
/// market is left untouched.
pub fn place_bet(market: &mut Market, bettor: u64, position: bool, amount: u64, now: i64) -> (r: Result<Bet, ErrorCode>)
    ensures
        (match place_bet_error(*old(market), position, amount, now) {
            Some(e) => r == Err::<Bet, ErrorCode>(e) && *final(market) == *old(market),
            None => r == Ok::<Bet, ErrorCode>(new_bet(*old(market), bettor, position, amount, now))
                && *final(market) == market_after_bet(*old(market), position, amount),
        }),
        r is Ok ==> pool_total(*final(market)) == pool_total(*old(market)) + amount,
        r is Err ==> *final(market) == *old(market),
        final(market).total_yes_amount >= old(market).total_yes_amount,
        final(market).total_no_amount >= old(market).total_no_amount,
        final(market).resolved == old(market).resolved,
        final(market).outcome == old(market).outcome,
        final(market).expires_at == old(market).expires_at,
        market_wf(*old(market)) ==> market_wf(*final(market)),
{
    if market.resolved {
        return Err(ErrorCode::MarketResolved);
    }
    if now >= market.expires_at {
        return Err(ErrorCode::MarketExpired);
    }
    if amount == 0 {
        return Err(ErrorCode::InvalidAmount);
    }
    if position {
        if amount > u64::MAX - market.total_yes_amount {
            return Err(ErrorCode::Overflow);
        }
        market.total_yes_amount = market.total_yes_amount + amount;
    } else {
        if amount > u64::MAX - market.total_no_amount {
            return Err(ErrorCode::Overflow);
        }
        market.total_no_amount = market.total_no_amount + amount;
    }
    Ok(Bet { market: market.id, user: bettor, position, amount, created_at: now, claimed: false })
}

/// One requested bet: who, which side, how much, and the clock reading at
/// the moment of the call.
#[derive(Clone, Copy, Debug, PartialEq, Eq, Structural)]
pub struct BetRequest {
    pub bettor: u64,
    pub position: bool,
    pub amount: u64,
    pub now: i64,
}

/// Whether market `m` accepts request `q`.
pub open spec fn bet_accepted(m: Market, q: BetRequest) -> bool {
    place_bet_error(m, q.position, q.amount, q.now) is None
}

/// The market after one request: changed when accepted, untouched when
/// refused.
pub open spec fn market_after_request(m: Market, q: BetRequest) -> Market {
    if bet_accepted(m, q) {
        market_after_bet(m, q.position, q.amount)
    } else {
        m
    }
}

/// The market after a whole sequence of requests, applied first to last.
pub open spec fn run_bets(m: Market, qs: Seq<BetRequest>) -> Market
    decreases qs.len(),
{
    if qs.len() == 0 {
        m
    } else {
        run_bets(market_after_request(m, qs[0]), qs.subrange(1, qs.len() as int))
    }
}

/// The amounts of exactly the accepted requests in `qs`, summed.
pub open spec fn accepted_sum(m: Market, qs: Seq<BetRequest>) -> int
    decreases qs.len(),
{
    if qs.len() == 0 {
        0
    } else {
        (if bet_accepted(m, qs[0]) { qs[0].amount as int } else { 0 })
            + accepted_sum(market_after_request(m, qs[0]), qs.subrange(1, qs.len() as int))
    }
}

/// Law: over any sequence of bet requests, applied one at a time, the pool
/// total grows by exactly the sum of the accepted amounts — no accepted
/// increment is lost, and no refused request leaves a trace. On a freshly
/// created market, whose pool total is zero, the pool total after the
/// sequence therefore equals the sum of all accepted bet amounts.
pub proof fn lemma_pool_counts_every_accepted_bet(m: Market, qs: Seq<BetRequest>)
    ensures
        pool_total(run_bets(m, qs)) == pool_total(m) + accepted_sum(m, qs),
    decreases qs.len(),
{
    if qs.len() == 0 {
    } else {
        let m1 = market_after_request(m, qs[0]);
        lemma_pool_counts_every_accepted_bet(m1, qs.subrange(1, qs.len() as int));
    }
}

/// The amounts of exactly the accepted requests in `qs` that stake on side
/// `position`, summed.
pub open spec fn accepted_side_sum(m: Market, qs: Seq<BetRequest>, position: bool) -> int
    decreases qs.len(),
{
    if qs.len() == 0 {
        0
    } else {
        (if bet_accepted(m, qs[0]) && qs[0].position == position { qs[0].amount as int } else { 0 })
            + accepted_side_sum(market_after_request(m, qs[0]), qs.subrange(1, qs.len() as int), position)
    }
}

/// Law: each side's total grows by exactly the accepted amounts staked on
/// that side. On a freshly created market each side's pool is therefore the
/// sum of the accepted bet amounts on that side — the fact that lets
/// `payout::lemma_claims_never_exceed_pool` speak for every market the
/// ledger built, since the winning bets' stakes never sum to more than the
/// winning pool.
pub proof fn lemma_side_total_counts_accepted_bets(m: Market, qs: Seq<BetRequest>, position: bool)
    ensures
        side_total(run_bets(m, qs), position) == side_total(m, position) + accepted_side_sum(m, qs, position),
    decreases qs.len(),
{
    if qs.len() == 0 {
    } else {
        let m1 = market_after_request(m, qs[0]);
        lemma_side_total_counts_accepted_bets(m1, qs.subrange(1, qs.len() as int), position);
    }
}

/// Law: on an unresolved market, a bet placed at or after the expiry always
/// fails `MarketExpired`.
pub proof fn lemma_bet_at_or_after_expiry_fails(m: Market, position: bool, amount: u64, now: i64)
    requires
        !m.resolved,
        now >= m.expires_at,
    ensures
        place_bet_error(m, position, amount, now) == Some(ErrorCode::MarketExpired),
{
}

} // verus!
