//! A binary-outcome prediction market.
//!
//! Participants open a market over a yes/no question with an expiry, stake
//! bets on either side while it is open, a resolver settles the outcome after
//! expiry by posting a stake of a tenth of the pool, and winners claim a
//! proportional share of the whole pool.
//!
//! This crate holds the market lifecycle state machine and its pool and
//! payout arithmetic. Identity of actors and records, custody of funds, the
//! clock, and durable storage are outside collaborators: callers hand their
//! answers in as plain values (an allocated record identity, the current
//! time, the ledger's answer to a capability query) and move funds only after
//! an operation here has succeeded.

pub mod betting;
pub mod errors;
pub mod market;
pub mod payout;
pub mod resolution;

pub use crate::betting::Bet;
pub use crate::betting::BetRequest;
pub use crate::betting::place_bet;
pub use crate::errors::ErrorCode;
pub use crate::market::Market;
pub use crate::market::Outcome;
pub use crate::market::create_market;
pub use crate::payout::claim_winnings;
pub use crate::resolution::Resolution;
pub use crate::resolution::resolve_market;
