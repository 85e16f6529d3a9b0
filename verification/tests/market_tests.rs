use polymolt::{
    claim_winnings, create_market, place_bet, resolve_market, Bet, ErrorCode, Market, Outcome,
};

fn open_market(expires_at: i64) -> Market {
    create_market(1, 100, String::from("will it rain tomorrow?"), expires_at, 0)
}

#[test]
fn create_market_starts_open_and_empty() {
    let m = create_market(7, 42, String::from("q"), 1000, 5);
    assert_eq!(m.id, 7);
    assert_eq!(m.creator, 42);
    assert_eq!(m.question, "q");
    assert_eq!(m.expires_at, 1000);
    assert_eq!(m.created_at, 5);
    assert!(!m.resolved);
    assert_eq!(m.outcome, Outcome::Pending);
    assert_eq!(m.total_yes_amount, 0);
    assert_eq!(m.total_no_amount, 0);
}

#[test]
fn place_bet_accumulates_both_sides() {
    let mut m = open_market(1000);
    let b1 = place_bet(&mut m, 201, true, 30, 10).unwrap();
    let b2 = place_bet(&mut m, 202, true, 270, 11).unwrap();
    let b3 = place_bet(&mut m, 203, false, 700, 12).unwrap();
    assert_eq!(m.total_yes_amount, 300);
    assert_eq!(m.total_no_amount, 700);
    assert_eq!(b1.market, 1);
    assert_eq!(b1.user, 201);
    assert!(b1.position);
    assert_eq!(b1.amount, 30);
    assert_eq!(b1.created_at, 10);
    assert!(!b1.claimed);
    assert_eq!(b2.amount, 270);
    assert!(!b3.position);
}

#[test]
fn pool_total_is_sum_of_accepted_amounts() {
    // A mixed run of accepted and refused requests: the pool counts exactly
    // the accepted ones.
    let mut m = open_market(1000);
    assert!(place_bet(&mut m, 1, true, 5, 10).is_ok());
    assert_eq!(
        place_bet(&mut m, 2, false, 0, 10).unwrap_err(),
        ErrorCode::InvalidAmount
    );
    assert!(place_bet(&mut m, 3, false, 7, 20).is_ok());
    assert_eq!(
        place_bet(&mut m, 4, true, 9, 1000).unwrap_err(),
        ErrorCode::MarketExpired
    );
    assert!(place_bet(&mut m, 5, true, 11, 30).is_ok());
    assert_eq!(m.total_yes_amount + m.total_no_amount, 5 + 7 + 11);
}

#[test]
fn place_bet_with_zero_amount_fails_invalid_amount() {
    let mut m = open_market(1000);
    let r = place_bet(&mut m, 201, true, 0, 10);
    assert_eq!(r.unwrap_err(), ErrorCode::InvalidAmount);
    assert_eq!(m.total_yes_amount, 0);
    assert_eq!(m.total_no_amount, 0);
}

#[test]
fn place_bet_at_expiry_fails_market_expired() {
    let mut m = open_market(1000);
    let r = place_bet(&mut m, 201, true, 5, 1000);
    assert_eq!(r.unwrap_err(), ErrorCode::MarketExpired);
    let r = place_bet(&mut m, 201, true, 5, 1001);
    assert_eq!(r.unwrap_err(), ErrorCode::MarketExpired);
    assert_eq!(m.total_yes_amount, 0);
}

#[test]
fn place_bet_after_resolution_fails_market_resolved() {
    let mut m = open_market(1000);
    place_bet(&mut m, 201, true, 5, 10).unwrap();
    resolve_market(&mut m, 300, true, false, 1000).unwrap();
    let r = place_bet(&mut m, 202, false, 5, 2000);
    assert_eq!(r.unwrap_err(), ErrorCode::MarketResolved);
    assert_eq!(m.total_yes_amount, 5);
    assert_eq!(m.total_no_amount, 0);
}

#[test]
fn place_bet_overflowing_side_total_fails_overflow() {
    let mut m = open_market(1000);
    place_bet(&mut m, 201, true, u64::MAX, 10).unwrap();
    let r = place_bet(&mut m, 202, true, 1, 11);
    assert_eq!(r.unwrap_err(), ErrorCode::Overflow);
    assert_eq!(m.total_yes_amount, u64::MAX);
    // The other side still takes bets.
    assert!(place_bet(&mut m, 203, false, 1, 12).is_ok());
}

#[test]
fn resolve_before_expiry_fails_market_not_expired() {
    let mut m = open_market(1000);
    let r = resolve_market(&mut m, 300, true, false, 999);
    assert_eq!(r.unwrap_err(), ErrorCode::MarketNotExpired);
    assert!(!m.resolved);
    assert_eq!(m.outcome, Outcome::Pending);
}

#[test]
fn resolve_by_bettor_fails_resolver_has_position() {
    let mut m = open_market(1000);
    place_bet(&mut m, 201, true, 5, 10).unwrap();
    let r = resolve_market(&mut m, 201, true, true, 1000);
    assert_eq!(r.unwrap_err(), ErrorCode::ResolverHasPosition);
    assert!(!m.resolved);
}

#[test]
fn resolve_sets_outcome_and_stakes_tenth_of_pool() {
    let mut m = open_market(1000);
    place_bet(&mut m, 201, true, 300, 10).unwrap();
    place_bet(&mut m, 202, false, 700, 11).unwrap();
    let res = resolve_market(&mut m, 300, true, false, 1500).unwrap();
    assert!(m.resolved);
    assert_eq!(m.outcome, Outcome::Yes);
    // Pools are frozen as they stood.
    assert_eq!(m.total_yes_amount, 300);
    assert_eq!(m.total_no_amount, 700);
    assert_eq!(res.market, 1);
    assert_eq!(res.resolver, 300);
    assert!(res.outcome);
    assert_eq!(res.stake_amount, 100);
    assert_eq!(res.created_at, 1500);
}

#[test]
fn resolver_stake_rounds_down() {
    let mut m = open_market(1000);
    place_bet(&mut m, 201, true, 1004, 10).unwrap();
    place_bet(&mut m, 202, false, 5, 11).unwrap();
    // Pool of 1009 stakes 100, not 100.9.
    let res = resolve_market(&mut m, 300, false, false, 1000).unwrap();
    assert_eq!(res.stake_amount, 100);
    assert_eq!(m.outcome, Outcome::No);
}

#[test]
fn resolve_twice_fails_already_resolved() {
    let mut m = open_market(1000);
    resolve_market(&mut m, 300, true, false, 1000).unwrap();
    let r = resolve_market(&mut m, 301, false, false, 2000);
    assert_eq!(r.unwrap_err(), ErrorCode::AlreadyResolved);
    assert_eq!(m.outcome, Outcome::Yes);
}

#[test]
fn resolve_with_overflowing_pool_fails_overflow() {
    let mut m = open_market(1000);
    place_bet(&mut m, 201, true, u64::MAX, 10).unwrap();
    place_bet(&mut m, 202, false, 1, 11).unwrap();
    let r = resolve_market(&mut m, 300, true, false, 1000);
    assert_eq!(r.unwrap_err(), ErrorCode::Overflow);
    assert!(!m.resolved);
}

#[test]
fn winning_claim_pays_proportional_share_of_pool() {
    // Pools of 300 yes / 700 no resolve yes: a 30 yes-bettor gets
    // 30 * 1000 / 300 = 100.
    let mut m = open_market(1000);
    let mut bet = place_bet(&mut m, 201, true, 30, 10).unwrap();
    place_bet(&mut m, 202, true, 270, 11).unwrap();
    place_bet(&mut m, 203, false, 700, 12).unwrap();
    resolve_market(&mut m, 300, true, false, 1000).unwrap();
    let w = claim_winnings(&m, &mut bet).unwrap();
    assert_eq!(w, 100);
    assert!(bet.claimed);
}

#[test]
fn claim_rounds_winnings_down() {
    let mut m = open_market(1000);
    let mut bet = place_bet(&mut m, 201, true, 1, 10).unwrap();
    place_bet(&mut m, 202, true, 2, 11).unwrap();
    place_bet(&mut m, 203, false, 7, 12).unwrap();
    resolve_market(&mut m, 300, true, false, 1000).unwrap();
    // 1 * 10 / 3 rounds down to 3.
    let w = claim_winnings(&m, &mut bet).unwrap();
    assert_eq!(w, 3);
}

#[test]
fn claim_before_resolution_fails_market_not_resolved() {
    let mut m = open_market(1000);
    let mut bet = place_bet(&mut m, 201, true, 30, 10).unwrap();
    let r = claim_winnings(&m, &mut bet);
    assert_eq!(r.unwrap_err(), ErrorCode::MarketNotResolved);
    assert!(!bet.claimed);
}

#[test]
fn losing_claim_fails_not_a_winner() {
    let mut m = open_market(1000);
    place_bet(&mut m, 201, true, 300, 10).unwrap();
    let mut bet = place_bet(&mut m, 203, false, 700, 12).unwrap();
    resolve_market(&mut m, 300, true, false, 1000).unwrap();
    let r = claim_winnings(&m, &mut bet);
    assert_eq!(r.unwrap_err(), ErrorCode::NotAWinner);
    assert!(!bet.claimed);
}

#[test]
fn claim_twice_fails_already_claimed() {
    let mut m = open_market(1000);
    let mut bet = place_bet(&mut m, 201, true, 30, 10).unwrap();
    place_bet(&mut m, 203, false, 70, 12).unwrap();
    resolve_market(&mut m, 300, true, false, 1000).unwrap();
    assert_eq!(claim_winnings(&m, &mut bet).unwrap(), 100);
    let r = claim_winnings(&m, &mut bet);
    assert_eq!(r.unwrap_err(), ErrorCode::AlreadyClaimed);
    assert!(bet.claimed);
}

#[test]
fn claim_on_empty_winning_pool_fails_no_winning_pool() {
    // Every stake landed on yes, but the market resolves no: the declared
    // winning side holds nothing, so no payout share is defined.
    let mut m = open_market(1000);
    place_bet(&mut m, 201, true, 500, 10).unwrap();
    resolve_market(&mut m, 300, false, false, 1000).unwrap();
    assert_eq!(m.total_no_amount, 0);
    let mut bet = Bet {
        market: 1,
        user: 204,
        position: false,
        amount: 5,
        created_at: 10,
        claimed: false,
    };
    let r = claim_winnings(&m, &mut bet);
    assert_eq!(r.unwrap_err(), ErrorCode::NoWinningPool);
    assert!(!bet.claimed);
}

#[test]
fn claim_whose_payout_exceeds_range_fails_overflow() {
    // A tiny winning pool against a huge total pool: the share formula
    // grants more than the numeric range can carry.
    let m = Market {
        id: 1,
        creator: 100,
        question: String::from("q"),
        expires_at: 1000,
        resolved: true,
        outcome: Outcome::Yes,
        total_yes_amount: 1,
        total_no_amount: u64::MAX - 1,
        created_at: 0,
    };
    let mut bet = Bet {
        market: 1,
        user: 201,
        position: true,
        amount: 2,
        created_at: 10,
        claimed: false,
    };
    let r = claim_winnings(&m, &mut bet);
    assert_eq!(r.unwrap_err(), ErrorCode::Overflow);
    assert!(!bet.claimed);
}

#[test]
fn claim_on_market_with_overflowing_pool_fails_overflow() {
    let m = Market {
        id: 1,
        creator: 100,
        question: String::from("q"),
        expires_at: 1000,
        resolved: true,
        outcome: Outcome::Yes,
        total_yes_amount: u64::MAX,
        total_no_amount: 1,
        created_at: 0,
    };
    let mut bet = Bet {
        market: 1,
        user: 201,
        position: true,
        amount: 1,
        created_at: 10,
        claimed: false,
    };
    let r = claim_winnings(&m, &mut bet);
    assert_eq!(r.unwrap_err(), ErrorCode::Overflow);
}

#[test]
fn sole_winner_takes_the_whole_pool() {
    let mut m = open_market(1000);
    let mut bet = place_bet(&mut m, 201, false, 100, 10).unwrap();
    place_bet(&mut m, 202, true, 900, 11).unwrap();
    resolve_market(&mut m, 300, false, false, 1000).unwrap();
    assert_eq!(claim_winnings(&m, &mut bet).unwrap(), 1000);
}

#[test]
fn winning_claims_together_stay_within_pool() {
    let mut m = open_market(1000);
    let mut b1 = place_bet(&mut m, 201, true, 1, 10).unwrap();
    let mut b2 = place_bet(&mut m, 202, true, 1, 11).unwrap();
    let mut b3 = place_bet(&mut m, 203, true, 1, 12).unwrap();
    place_bet(&mut m, 204, false, 7, 13).unwrap();
    resolve_market(&mut m, 300, true, false, 1000).unwrap();
    let total: u64 = claim_winnings(&m, &mut b1).unwrap()
        + claim_winnings(&m, &mut b2).unwrap()
        + claim_winnings(&m, &mut b3).unwrap();
    // Each gets 1 * 10 / 3 = 3; together 9, within the pool of 10.
    assert_eq!(total, 9);
    assert!(total <= m.total_yes_amount + m.total_no_amount);
}

#[test]
fn market_may_be_created_already_expired() {
    // No relation between creation time and expiry is enforced; such a
    // market takes no bets but can be resolved at once.
    let mut m = create_market(1, 100, String::from("q"), 10, 50);
    let r = place_bet(&mut m, 201, true, 5, 50);
    assert_eq!(r.unwrap_err(), ErrorCode::MarketExpired);
    assert!(resolve_market(&mut m, 300, true, false, 50).is_ok());
}
