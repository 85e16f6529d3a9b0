use vstd::prelude::*;

verus! {

/// Why an operation was refused. Every operation is all-or-nothing: on any
/// of these, no record is created and no field is changed.
#[derive(Clone, Copy, Debug, PartialEq, Eq, Structural)]
pub enum ErrorCode {
    /// `resolve_market` was called on a market that is already resolved.
    AlreadyResolved,
    /// `place_bet` was called at or after the market's expiry.
    MarketExpired,
    /// `resolve_market` was called before the market's expiry.
    MarketNotExpired,
    /// `place_bet` was called on a market that is already resolved.
    MarketResolved,
    /// `claim_winnings` was called while the market's outcome is still pending.
    MarketNotResolved,
    /// `claim_winnings` was called on a bet that sits on the losing side.
    NotAWinner,
    /// `resolve_market` was called by an actor who holds a bet on the market.
    ResolverHasPosition,
    /// `place_bet` was called with a zero amount.
    InvalidAmount,
    /// An accumulator or a payout would not fit its numeric range.
    Overflow,
    /// The declared winning side holds no stake, so no payout share is defined.
    NoWinningPool,
    /// `claim_winnings` was called on a bet that has already been paid out.
    AlreadyClaimed,
}

} // verus!
