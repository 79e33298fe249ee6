//! A verified settlement engine for European-roulette wagering.
//!
//! Bettors submit batches of spins, each spin holding one or more bets.
//! The engine validates the wager, escrows the stake into the house
//! ledger, and — once an externally produced random byte stream arrives —
//! evaluates every bet, settles the ledger, and reports the payout owed.

pub mod chain_signature;
pub mod engine;
pub mod ft;
pub mod hex_codec;
pub mod ledger;
pub mod roulette;
