use vstd::prelude::*;

use vstd::arithmetic::div_mod::{
    lemma_div_is_ordered, lemma_div_multiples_vanish, lemma_fundamental_div_mod,
    lemma_mod_division_less_than_divisor,
};
use vstd::arithmetic::mul::{
    lemma_mul_inequality, lemma_mul_is_distributive_add, lemma_mul_is_distributive_add_other_way,
    lemma_mul_nonnegative, lemma_mul_upper_bound,
};

use crate::betting::Bet;
use crate::errors::ErrorCode;
use crate::market::{Market, Outcome, pool_total, winning_pool};

verus! {

/// Whether `b` sits on the side that market `m`'s outcome declares the
/// winner. Never holds while the outcome is pending.
pub open spec fn bet_wins(m: Market, b: Bet) -> bool {
    (b.position && m.outcome == Outcome::Yes) || (!b.position && m.outcome == Outcome::No)
}

/// The payout formula: the bet's share of the whole pool, in proportion to
/// its stake within the winning side's pool, rounded down to an integer.
pub open spec fn winnings_formula(amount: int, total_pool: int, wpool: int) -> int {
    amount * total_pool / wpool
}

/// What a winning bet `b` on resolved market `m` is owed.
pub open spec fn winnings_of(m: Market, b: Bet) -> int {
    winnings_formula(b.amount as int, pool_total(m), winning_pool(m))
}

/// The first rule a claim breaks, in the order the checks are made; `None`
/// when the payout is issued.
pub open spec fn claim_error(m: Market, b: Bet) -> Option<ErrorCode> {
    if m.outcome == Outcome::Pending {
        Some(ErrorCode::MarketNotResolved)
    } else if !bet_wins(m, b) {
        Some(ErrorCode::NotAWinner)
    } else if winning_pool(m) == 0 {
        Some(ErrorCode::NoWinningPool)
    } else if pool_total(m) > u64::MAX {
        Some(ErrorCode::Overflow)
    } else if winnings_of(m, b) > u64::MAX {
        Some(ErrorCode::Overflow)
    } else if b.claimed {
        Some(ErrorCode::AlreadyClaimed)
    } else {
        None
    }
}

/// Pays out a winning bet on a resolved market, at most once.
///
/// The product `amount * total_pool` is taken in a range wide enough that
/// it cannot wrap, and the claim fails `Overflow` if the resulting payout
/// does not fit the returned range. On success the bet's `claimed` marker
/// is set, atomically with the payout; on any error the bet is left
/// untouched.
pub fn claim_winnings(market: &Market, bet: &mut Bet) -> (r: Result<u64, ErrorCode>)
    ensures
        (match claim_error(*market, *old(bet)) {
            Some(e) => r == Err::<u64, ErrorCode>(e) && *final(bet) == *old(bet),
            None => r == Ok::<u64, ErrorCode>(winnings_of(*market, *old(bet)) as u64)
                && *final(bet) == (Bet { claimed: true, ..*old(bet) }),
        }),
        (r matches Ok(w) ==> w == winnings_of(*market, *old(bet))),
        r is Ok ==> final(bet).claimed,
        r is Err ==> *final(bet) == *old(bet),
        final(bet).amount == old(bet).amount,
        final(bet).position == old(bet).position,
{
    let winning_side: bool = match market.outcome {
        Outcome::Pending => {
            return Err(ErrorCode::MarketNotResolved);
        },
        Outcome::Yes => true,
        Outcome::No => false,
    };
    if bet.position != winning_side {
        return Err(ErrorCode::NotAWinner);
    }
    let wpool: u64 = if winning_side {
        market.total_yes_amount
    } else {
        market.total_no_amount
    };
    if wpool == 0 {
        return Err(ErrorCode::NoWinningPool);
    }
    if market.total_no_amount > u64::MAX - market.total_yes_amount {
        return Err(ErrorCode::Overflow);
    }
    let total_pool: u64 = market.total_yes_amount + market.total_no_amount;
    proof {
        lemma_mul_upper_bound(bet.amount as int, u64::MAX as int, total_pool as int, u64::MAX as int);
    }
    let product: u128 = (bet.amount as u128) * (total_pool as u128);
    let winnings_wide: u128 = product / (wpool as u128);
    if winnings_wide > u64::MAX as u128 {
        return Err(ErrorCode::Overflow);
    }
    if bet.claimed {
        return Err(ErrorCode::AlreadyClaimed);
    }
    bet.claimed = true;
    Ok(winnings_wide as u64)
}

/// The amounts in `amts`, summed.
pub open spec fn sum_amounts(amts: Seq<u64>) -> int
    decreases amts.len(),
{
    if amts.len() == 0 {
        0
    } else {
        amts[0] + sum_amounts(amts.subrange(1, amts.len() as int))
    }
}

/// What the payout formula grants each amount in `amts`, summed.
pub open spec fn sum_winnings(amts: Seq<u64>, total_pool: int, wpool: int) -> int
    decreases amts.len(),
{
    if amts.len() == 0 {
        0
    } else {
        winnings_formula(amts[0] as int, total_pool, wpool)
            + sum_winnings(amts.subrange(1, amts.len() as int), total_pool, wpool)
    }
}

/// Rounding down each summand separately never beats rounding down the sum:
/// `x / d + y / d <= (x + y) / d` for non-negative numerators.
proof fn lemma_div_superadditive(x: int, y: int, d: int)
    requires
        0 <= x,
        0 <= y,
        0 < d,
    ensures
        x / d + y / d <= (x + y) / d,
{
    lemma_fundamental_div_mod(x, d);
    lemma_fundamental_div_mod(y, d);
    lemma_mod_division_less_than_divisor(x, d);
    lemma_mod_division_less_than_divisor(y, d);
    let q = x / d + y / d;
    lemma_mul_is_distributive_add(d, x / d, y / d);
    assert(x + y >= d * q);
    lemma_div_is_ordered(d * q, x + y, d);
    lemma_div_multiples_vanish(q, d);
}

/// Summing the individual payouts never beats paying the summed stakes out
/// in one piece.
proof fn lemma_sum_winnings_le(amts: Seq<u64>, total_pool: int, wpool: int)
    requires
        0 <= total_pool,
        0 < wpool,
    ensures
        sum_winnings(amts, total_pool, wpool) <= winnings_formula(sum_amounts(amts), total_pool, wpool),
    decreases amts.len(),
{
    lemma_sum_amounts_nonneg(amts);
    if amts.len() == 0 {
    } else {
        let rest = amts.subrange(1, amts.len() as int);
        let a0 = amts[0] as int;
        let s_rest = sum_amounts(rest);
        lemma_sum_amounts_nonneg(rest);
        lemma_sum_winnings_le(rest, total_pool, wpool);
        lemma_mul_nonnegative(a0, total_pool);
        lemma_mul_nonnegative(s_rest, total_pool);
        lemma_div_superadditive(a0 * total_pool, s_rest * total_pool, wpool);
        lemma_mul_is_distributive_add_other_way(total_pool, a0, s_rest);
        assert(a0 * total_pool + s_rest * total_pool == (a0 + s_rest) * total_pool);
    }
}

/// The sum of any sequence of stakes is non-negative.
proof fn lemma_sum_amounts_nonneg(amts: Seq<u64>)
    ensures
        sum_amounts(amts) >= 0,
    decreases amts.len(),
{
    if amts.len() == 0 {
    } else {
        lemma_sum_amounts_nonneg(amts.subrange(1, amts.len() as int));
    }
}

/// Law: on a resolved market with a non-empty winning pool, the payouts to
/// any collection of winning bets whose stakes together stand within the
/// winning pool — as the bets the ledger accepted always do, since the pool
/// is exactly their sum — never add up to more than the whole pool.
pub proof fn lemma_claims_never_exceed_pool(m: Market, amts: Seq<u64>)
    requires
        m.outcome != Outcome::Pending,
        winning_pool(m) > 0,
        sum_amounts(amts) <= winning_pool(m),
    ensures
        sum_winnings(amts, pool_total(m), winning_pool(m)) <= pool_total(m),
{
    let p = pool_total(m);
    let w = winning_pool(m);
    let s = sum_amounts(amts);
    lemma_sum_amounts_nonneg(amts);
    lemma_sum_winnings_le(amts, p, w);
    lemma_mul_inequality(s, w, p);
    lemma_div_is_ordered(s * p, w * p, w);
    lemma_div_multiples_vanish(p, w);
    assert(w * p / w == p);
}

/// Law: a bet is paid out at most once. After any successful claim, a
/// second claim on the same bet always fails `AlreadyClaimed`.
pub proof fn lemma_claim_pays_at_most_once(m: Market, b: Bet)
    requires
        claim_error(m, b) is None,
    ensures
        claim_error(m, (Bet { claimed: true, ..b })) == Some(ErrorCode::AlreadyClaimed),
{
}

/// Law: a claim on a bet that sits on the losing side of a resolved market
/// always fails `NotAWinner`, whatever the pools hold.
pub proof fn lemma_losing_claim_fails(m: Market, b: Bet)
    requires
        m.outcome != Outcome::Pending,
        !bet_wins(m, b),
    ensures
        claim_error(m, b) == Some(ErrorCode::NotAWinner),
{
}

} // verus!
