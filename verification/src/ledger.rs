//! The house ledger: aggregate wagering counters with checked,
//! all-or-nothing mutation.

use vstd::prelude::*;

verus! {

/// Why a ledger mutation was refused. `Overflow` covers any counter
/// that would leave the `u128` range; `HouseEmpty` a payout that would
/// exceed the house balance.
#[derive(Clone, Copy, PartialEq, Eq, Structural, Debug)]
pub enum LedgerError {
    Overflow,
    HouseEmpty,
}

/// Aggregate counters of the wagering engine. The house balance grows
/// when a batch's stake is escrowed and shrinks when a settlement pays
/// out; the payout total only ever grows.
#[derive(Clone, Copy, PartialEq, Eq, Structural, Debug)]
pub struct Ledger {
    pub spins_total: u128,
    pub bets_total: u128,
    pub house_balance: u128,
    pub payout_total: u128,
}

/// Whether an escrow of `amount` covering `spin_count` spins and
/// `bet_count` bets keeps every counter inside the `u128` range.
pub open spec fn escrow_ok(l: Ledger, amount: int, spin_count: int, bet_count: int) -> bool {
    l.house_balance + amount <= u128::MAX && l.spins_total + spin_count <= u128::MAX
        && l.bets_total + bet_count <= u128::MAX
}

/// The ledger after a successful escrow.
pub open spec fn escrowed(l: Ledger, amount: int, spin_count: int, bet_count: int) -> Ledger {
    Ledger {
        spins_total: (l.spins_total + spin_count) as u128,
        bets_total: (l.bets_total + bet_count) as u128,
        house_balance: (l.house_balance + amount) as u128,
        payout_total: l.payout_total,
    }
}

/// Whether a settlement of `payout` is covered by the house balance
/// and keeps the payout total inside the `u128` range.
pub open spec fn settle_ok(l: Ledger, payout: int) -> bool {
    payout <= l.house_balance && l.payout_total + payout <= u128::MAX
}

/// The ledger after a successful settlement.
pub open spec fn settled(l: Ledger, payout: int) -> Ledger {
    Ledger {
        spins_total: l.spins_total,
        bets_total: l.bets_total,
        house_balance: (l.house_balance - payout) as u128,
        payout_total: (l.payout_total + payout) as u128,
    }
}

impl Ledger {
    /// A fresh ledger holding the given opening house balance.
    pub fn new(opening_balance: u128) -> (l: Ledger)
        ensures
            l == (Ledger {
                spins_total: 0,
                bets_total: 0,
                house_balance: opening_balance,
                payout_total: 0,
            }),
    {
        Ledger { spins_total: 0, bets_total: 0, house_balance: opening_balance, payout_total: 0 }
    }

    /// Books an accepted batch: the whole stake joins the house balance
    /// and the spin and bet counters advance. Either every counter is
    /// updated or, on overflow, none is.
    pub fn escrow(&mut self, amount: u128, spin_count: u128, bet_count: u128) -> (r: Result<
        (),
        LedgerError,
    >)
        ensures
            r is Ok <==> escrow_ok(*old(self), amount as int, spin_count as int, bet_count as int),
            r is Ok ==> *final(self) == escrowed(
                *old(self),
                amount as int,
                spin_count as int,
                bet_count as int,
            ),
            r is Err ==> *final(self) == *old(self) && r == Err::<(), LedgerError>(
                LedgerError::Overflow,
            ),
    {
        let house = match self.house_balance.checked_add(amount) {
            Some(v) => v,
            None => {
                return Err(LedgerError::Overflow);
            },
        };
        let spins = match self.spins_total.checked_add(spin_count) {
            Some(v) => v,
            None => {
                return Err(LedgerError::Overflow);
            },
        };
        let bets = match self.bets_total.checked_add(bet_count) {
            Some(v) => v,
            None => {
                return Err(LedgerError::Overflow);
            },
        };
        self.house_balance = house;
        self.spins_total = spins;
        self.bets_total = bets;
        Ok(())
    }

    /// Books a settlement: the payout leaves the house balance and
    /// joins the payout total. Fails with `HouseEmpty` when the payout
    /// exceeds the house balance, with `Overflow` when the payout total
    /// would leave the `u128` range; on failure nothing changes.
    pub fn settle(&mut self, payout: u128) -> (r: Result<(), LedgerError>)
        ensures
            r is Ok <==> settle_ok(*old(self), payout as int),
            r is Ok ==> *final(self) == settled(*old(self), payout as int),
            r is Err ==> *final(self) == *old(self),
            r == Err::<(), LedgerError>(LedgerError::HouseEmpty) <==> payout
                > old(self).house_balance,
            r == Err::<(), LedgerError>(LedgerError::Overflow) <==> payout <= old(
                self,
            ).house_balance && old(self).payout_total + payout > u128::MAX,
    {
        let house = match self.house_balance.checked_sub(payout) {
            Some(v) => v,
            None => {
                return Err(LedgerError::HouseEmpty);
            },
        };
        let paid = match self.payout_total.checked_add(payout) {
            Some(v) => v,
            None => {
                return Err(LedgerError::Overflow);
            },
        };
        self.house_balance = house;
        self.payout_total = paid;
        Ok(())
    }
}

/// Law: a settlement that follows a successful escrow always succeeds
/// when the payout does not exceed the amount just escrowed, provided
/// the payout total stays inside the `u128` range.
pub proof fn lemma_escrow_then_settle(
    l: Ledger,
    amount: u128,
    spin_count: u128,
    bet_count: u128,
    payout: u128,
)
    requires
        escrow_ok(l, amount as int, spin_count as int, bet_count as int),
        payout <= amount,
        l.payout_total + payout <= u128::MAX,
    ensures
        settle_ok(escrowed(l, amount as int, spin_count as int, bet_count as int), payout as int),
{
}

/// Law: settlement moves money, it never creates or destroys it: the
/// payout leaves the house balance and joins the payout total, so
/// their sum — and each wagering counter — is unchanged.
pub proof fn lemma_settle_conserves_money(l: Ledger, payout: u128)
    requires
        settle_ok(l, payout as int),
    ensures
        settled(l, payout as int).house_balance + settled(l, payout as int).payout_total
            == l.house_balance + l.payout_total,
        settled(l, payout as int).spins_total == l.spins_total,
        settled(l, payout as int).bets_total == l.bets_total,
{
}

/// Law: a payout larger than the house balance — in particular, larger
/// than everything the house ever collected — always fails.
pub proof fn lemma_settle_fails_when_house_short(l: Ledger, payout: u128)
    requires
        payout > l.house_balance,
    ensures
        !settle_ok(l, payout as int),
{
}

} // verus!
