//! The message a bettor attaches when staking a balance-tracked token:
//! the batch to play and the gas budget for the resolution callback.

use vstd::prelude::*;
use crate::roulette::Bet;

verus! {

/// A spin request carried inside a token-transfer notification. The
/// transferred token amount serves as the stake.
#[derive(Debug)]
pub struct SpinFT {
    pub spins: Vec<Vec<Bet>>,
    pub callback_tgas: u8,
}

} // verus!
