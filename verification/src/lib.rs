//! Commitment-staking core: a participant locks a token stake against a
//! behavioral goal for a fixed number of days; daily compliance reports
//! accrue toward a completion threshold; at expiry the stake is either
//! returned to the beneficiary (success) or forfeited to a communal
//! wellness pool (failure).
//!
//! This crate holds the verified goal lifecycle state machine and its
//! escrow accounting. The ledger substrate, the token-transfer primitive
//! and the event transport are external collaborators: callers hand in the
//! current chain timestamp and the token balances involved, and receive
//! the updated records and the event to emit.

pub mod errors;
pub mod events;
pub mod laws;
pub mod ops;
pub mod state;
