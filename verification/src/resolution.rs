use vstd::prelude::*;

use crate::betting::place_bet_error;
use crate::errors::ErrorCode;
use crate::market::{Market, Outcome, market_wf, pool_total};

verus! {

/// The resolver's staked declaration of a market's outcome. At most one per
/// market; its creation is paired atomically with the market's transition
/// to resolved.
#[derive(Clone, Copy, Debug, PartialEq, Eq, Structural)]
pub struct Resolution {
    /// Identity of the market that was resolved.
    pub market: u64,
    /// Identity of the actor who resolved it.
    pub resolver: u64,
    /// The declared outcome: `true` for yes, `false` for no.
    pub outcome: bool,
    /// The stake the resolver posts: a tenth of the whole pool, rounded down.
    pub stake_amount: u64,
    /// Timestamp at which the market was resolved.
    pub created_at: i64,
}

/// The first rule a resolution request breaks on market `m`, in the order
/// the checks are made; `None` when the resolution is accepted.
///
/// `resolver_has_bet` is the ledger collaborator's answer to the capability
/// query "does any bet by this resolver exist on this market?".
pub open spec fn resolve_error(m: Market, resolver_has_bet: bool, now: i64) -> Option<ErrorCode> {
    if m.resolved {
        Some(ErrorCode::AlreadyResolved)
    } else if now < m.expires_at {
        Some(ErrorCode::MarketNotExpired)
    } else if resolver_has_bet {
        Some(ErrorCode::ResolverHasPosition)
    } else if pool_total(m) > u64::MAX {
        Some(ErrorCode::Overflow)
    } else {
        None
    }
}

/// The market after resolution: the outcome recorded, both pools frozen as
/// they stand, every other field kept.
pub open spec fn resolved_market(m: Market, outcome: bool) -> Market {
    Market {
        resolved: true,
        outcome: if outcome { Outcome::Yes } else { Outcome::No },
        ..m
    }
}

/// The resolver's stake on market `m`: a tenth of the whole pool, rounded
/// down to an integer.
pub open spec fn stake_of(m: Market) -> int {
    pool_total(m) / 10
}

/// The record an accepted resolution creates.
pub open spec fn new_resolution(m: Market, resolver: u64, outcome: bool, now: i64) -> Resolution {
    Resolution {
        market: m.id,
        resolver: resolver,
        outcome: outcome,
        stake_amount: stake_of(m) as u64,
        created_at: now,
    }
}

/// Settles an expired market to `outcome`.
///
/// `resolver` is the authenticated caller's identity, `resolver_has_bet`
/// the ledger collaborator's answer to whether that caller holds a bet on
/// this market, and `now` the clock collaborator's current time. On success
/// the market transitions to resolved and the returned record carries the
/// resolver's stake, atomically; on any error the market is left untouched.
pub fn resolve_market(market: &mut Market, resolver: u64, outcome: bool, resolver_has_bet: bool, now: i64) -> (r: Result<Resolution, ErrorCode>)
    ensures
        (match resolve_error(*old(market), resolver_has_bet, now) {
            Some(e) => r == Err::<Resolution, ErrorCode>(e) && *final(market) == *old(market),
            None => r == Ok::<Resolution, ErrorCode>(new_resolution(*old(market), resolver, outcome, now))
                && *final(market) == resolved_market(*old(market), outcome),
        }),
        r is Err ==> *final(market) == *old(market),
        r is Ok ==> final(market).resolved && final(market).outcome != Outcome::Pending,
        (r matches Ok(res) ==> res.stake_amount == pool_total(*old(market)) / 10),
        final(market).total_yes_amount == old(market).total_yes_amount,
        final(market).total_no_amount == old(market).total_no_amount,
        pool_total(*final(market)) == pool_total(*old(market)),
        market_wf(*old(market)) ==> market_wf(*final(market)),
{
    if market.resolved {
        return Err(ErrorCode::AlreadyResolved);
    }
    if now < market.expires_at {
        return Err(ErrorCode::MarketNotExpired);
    }
    if resolver_has_bet {
        return Err(ErrorCode::ResolverHasPosition);
    }
    if market.total_no_amount > u64::MAX - market.total_yes_amount {
        return Err(ErrorCode::Overflow);
    }
    let total_pool: u64 = market.total_yes_amount + market.total_no_amount;
    let stake_amount: u64 = total_pool / 10;
    market.resolved = true;
    market.outcome = if outcome { Outcome::Yes } else { Outcome::No };
    Ok(Resolution {
        market: market.id,
        resolver: resolver,
        outcome: outcome,
        stake_amount: stake_amount,
        created_at: now,
    })
}

/// Law: a market resolves at most once. After any resolution, a second
/// resolution request always fails `AlreadyResolved`, whoever asks and
/// whenever.
pub proof fn lemma_resolve_at_most_once(m: Market, outcome: bool, resolver_has_bet: bool, now: i64)
    ensures
        resolve_error(resolved_market(m, outcome), resolver_has_bet, now) == Some(ErrorCode::AlreadyResolved),
{
}

/// Law: on an unresolved market, a resolution request before the expiry
/// always fails `MarketNotExpired`.
pub proof fn lemma_resolve_before_expiry_fails(m: Market, resolver_has_bet: bool, now: i64)
    requires
        !m.resolved,
        now < m.expires_at,
    ensures
        resolve_error(m, resolver_has_bet, now) == Some(ErrorCode::MarketNotExpired),
{
}

/// Law: once a market is resolved, every later bet request on it fails
/// `MarketResolved`, whoever asks, for any amount and at any time.
pub proof fn lemma_no_bets_after_resolution(m: Market, outcome: bool, position: bool, amount: u64, now: i64)
    ensures
        place_bet_error(resolved_market(m, outcome), position, amount, now) == Some(ErrorCode::MarketResolved),
{
}

} // verus!
