//! The settlement state machine: batch acceptance with escrow, and
//! resolution of an arrived (or failed) randomness response against the
//! ledger.

use vstd::prelude::*;
use crate::ledger::{Ledger, LedgerError, escrow_ok, escrowed, settled};
use crate::roulette::{Bet, bet_eval, bet_legal, spec_bet_legal, spec_bet_eval, bet_in_domain, kind_multiple};
use crate::hex_codec::{hex_decode, hex_bytes, is_hex_str};

verus! {

/// A batch must hold fewer spins than this. The cap bounds the work of
/// a settlement and the number of random bytes one response must cover.
pub const SPIN_BATCH_CAP: usize = 64;

/// The house balance a freshly initialised engine starts with.
pub const OPENING_HOUSE_BALANCE: u128 = 100_000_000_000_000_000_000_000_000;

/// Why a submitted batch was rejected. Rejection is synchronous and
/// leaves the engine untouched.
#[derive(Clone, Copy, PartialEq, Eq, Structural, Debug)]
pub enum SpinError {
    /// The batch holds `SPIN_BATCH_CAP` spins or more.
    TooManySpins,
    /// Some bet's selector lies outside its kind's domain.
    IllegalBet,
    /// The bets' amounts do not sum to the attached stake exactly.
    StakeMismatch,
    /// A stake sum or a ledger counter would leave the `u128` range.
    Overflow,
}

/// Why a resolution failed fatally. Failure leaves the engine
/// untouched; the stake escrowed at acceptance stays with the house.
#[derive(Clone, Copy, PartialEq, Eq, Structural, Debug)]
pub enum ResolveError {
    /// The first signature component is not a hex string.
    BigRDecode,
    /// The second signature component is not a hex string.
    ScalarDecode,
    /// The first component decodes to nothing, so its compression flag
    /// cannot be stripped.
    EmptySignature,
    /// The byte stream holds fewer bytes than the batch has spins.
    ShortRandomness,
    /// The winnings sum would leave the `u128` range.
    PayoutOverflow,
    /// The winnings exceed the house balance.
    HouseEmpty,
    /// The cumulative payout counter would leave the `u128` range.
    PayoutTotalOverflow,
}

/// The two components of the randomness authority's signature, as hex
/// strings: one point in compressed encoding, and one scalar.
#[derive(Clone, PartialEq, Eq, Debug)]
pub struct SignatureResponse {
    pub big_r_affine_point: String,
    pub s_scalar: String,
}

/// The wagering engine: its ledger, mutated only by batch acceptance
/// and settlement.
#[derive(Clone, Copy, PartialEq, Eq, Structural, Debug)]
pub struct Contract {
    pub ledger: Ledger,
}

/// The batch as a sequence of sequences of bets.
pub open spec fn batch_rows(spins: Seq<Vec<Bet>>) -> Seq<Seq<Bet>> {
    Seq::new(spins.len(), |i: int| spins[i]@)
}

/// Whether every bet of the batch is legal.
pub open spec fn all_bets_legal(rows: Seq<Seq<Bet>>) -> bool {
    forall|i: int, j: int|
        0 <= i < rows.len() && 0 <= j < rows[i].len() ==> spec_bet_legal(rows[i][j])
}

/// Whether every bet of the batch can at least be evaluated.
pub open spec fn batch_in_domain(rows: Seq<Seq<Bet>>) -> bool {
    forall|i: int, j: int|
        0 <= i < rows.len() && 0 <= j < rows[i].len() ==> bet_in_domain(rows[i][j])
}

/// The sum of the bet amounts of one spin.
pub open spec fn spin_stake(bets: Seq<Bet>) -> int
    decreases bets.len(),
{
    if bets.len() == 0 {
        0
    } else {
        spin_stake(bets.drop_last()) + bets.last().amount
    }
}

/// The sum of all bet amounts of the batch.
pub open spec fn batch_stake(rows: Seq<Seq<Bet>>) -> int
    decreases rows.len(),
{
    if rows.len() == 0 {
        0
    } else {
        batch_stake(rows.drop_last()) + spin_stake(rows.last())
    }
}

/// The number of bets in the batch.
pub open spec fn batch_bet_count(rows: Seq<Seq<Bet>>) -> int
    decreases rows.len(),
{
    if rows.len() == 0 {
        0
    } else {
        batch_bet_count(rows.drop_last()) + rows.last().len()
    }
}

proof fn lemma_spin_stake_nonneg(bets: Seq<Bet>)
    ensures
        spin_stake(bets) >= 0,
    decreases bets.len(),
{
    if bets.len() > 0 {
        lemma_spin_stake_nonneg(bets.drop_last());
    }
}

proof fn lemma_spin_stake_take_succ(bets: Seq<Bet>, j: int)
    requires
        0 <= j < bets.len(),
    ensures
        spin_stake(bets.take(j + 1)) == spin_stake(bets.take(j)) + bets[j].amount,
{
    assert(bets.take(j + 1).drop_last() =~= bets.take(j));
}

proof fn lemma_spin_stake_take_le(bets: Seq<Bet>, j: int)
    requires
        0 <= j <= bets.len(),
    ensures
        spin_stake(bets.take(j)) <= spin_stake(bets),
    decreases bets.len() - j,
{
    if j == bets.len() {
        assert(bets.take(j) =~= bets);
    } else {
        lemma_spin_stake_take_succ(bets, j);
        lemma_spin_stake_take_le(bets, j + 1);
    }
}

proof fn lemma_batch_stake_nonneg(rows: Seq<Seq<Bet>>)
    ensures
        batch_stake(rows) >= 0,
    decreases rows.len(),
{
    if rows.len() > 0 {
        lemma_batch_stake_nonneg(rows.drop_last());
        lemma_spin_stake_nonneg(rows.last());
    }
}

proof fn lemma_batch_stake_take_succ(rows: Seq<Seq<Bet>>, i: int)
    requires
        0 <= i < rows.len(),
    ensures
        batch_stake(rows.take(i + 1)) == batch_stake(rows.take(i)) + spin_stake(rows[i]),
{
    assert(rows.take(i + 1).drop_last() =~= rows.take(i));
}

proof fn lemma_batch_stake_take_le(rows: Seq<Seq<Bet>>, i: int)
    requires
        0 <= i <= rows.len(),
    ensures
        batch_stake(rows.take(i)) <= batch_stake(rows),
    decreases rows.len() - i,
{
    if i == rows.len() {
        assert(rows.take(i) =~= rows);
    } else {
        lemma_batch_stake_take_succ(rows, i);
        lemma_spin_stake_nonneg(rows[i]);
        lemma_batch_stake_take_le(rows, i + 1);
    }
}

proof fn lemma_batch_bet_count_take_succ(rows: Seq<Seq<Bet>>, i: int)
    requires
        0 <= i < rows.len(),
    ensures
        batch_bet_count(rows.take(i + 1)) == batch_bet_count(rows.take(i)) + rows[i].len(),
{
    assert(rows.take(i + 1).drop_last() =~= rows.take(i));
}

/// What one bet pays on this byte: stake times (multiple plus one) on
/// a win — the stake comes back together with the winnings — and
/// nothing on a loss.
pub open spec fn bet_payout(byte: u8, b: Bet) -> int {
    let e = spec_bet_eval(byte, b);
    if e.0 {
        b.amount * (kind_multiple(b.kind) + 1)
    } else {
        0
    }
}

/// The payout owed for one spin's bets, all judged by the same byte.
pub open spec fn spin_payout(byte: u8, bets: Seq<Bet>) -> int
    decreases bets.len(),
{
    if bets.len() == 0 {
        0
    } else {
        spin_payout(byte, bets.drop_last()) + bet_payout(byte, bets.last())
    }
}

/// The payout owed for the whole batch: spin `i` consumes byte `i` of
/// the stream.
pub open spec fn batch_payout(stream: Seq<u8>, rows: Seq<Seq<Bet>>) -> int
    decreases rows.len(),
{
    if rows.len() == 0 {
        0
    } else {
        batch_payout(stream, rows.drop_last()) + spin_payout(
            stream[rows.len() - 1],
            rows.last(),
        )
    }
}

/// The consumable random byte stream of a signature response: the
/// scalar's bytes, then the point's bytes with the leading compression
/// flag stripped.
pub open spec fn random_stream(big_r: Seq<char>, scalar: Seq<char>) -> Seq<u8> {
    hex_bytes(scalar) + hex_bytes(big_r).skip(1)
}

/// The per-bet outcomes of one spin judged by one byte.
pub open spec fn eval_row(byte: u8, bets: Seq<Bet>) -> Seq<(bool, u8, bool, u8)> {
    Seq::new(bets.len(), |j: int| spec_bet_eval(byte, bets[j]))
}

/// The failure a resolution earns, if any, in the order the checks are
/// made: decoding the two components, stripping the flag, covering the
/// batch, summing the winnings, and settling the ledger.
pub open spec fn spec_resolve_error(
    big_r: Seq<char>,
    scalar: Seq<char>,
    rows: Seq<Seq<Bet>>,
    l: Ledger,
) -> Option<ResolveError> {
    let stream = random_stream(big_r, scalar);
    if !is_hex_str(big_r) {
        Some(ResolveError::BigRDecode)
    } else if !is_hex_str(scalar) {
        Some(ResolveError::ScalarDecode)
    } else if hex_bytes(big_r).len() == 0 {
        Some(ResolveError::EmptySignature)
    } else if stream.len() < rows.len() {
        Some(ResolveError::ShortRandomness)
    } else if batch_payout(stream, rows) > u128::MAX {
        Some(ResolveError::PayoutOverflow)
    } else if batch_payout(stream, rows) > l.house_balance {
        Some(ResolveError::HouseEmpty)
    } else if l.payout_total + batch_payout(stream, rows) > u128::MAX {
        Some(ResolveError::PayoutTotalOverflow)
    } else {
        None
    }
}

proof fn lemma_bet_payout_nonneg(byte: u8, b: Bet)
    ensures
        bet_payout(byte, b) >= 0,
{
    let m = kind_multiple(b.kind);
    assert(b.amount as int * (m as int + 1) >= 0) by (nonlinear_arith);
}

proof fn lemma_spin_payout_nonneg(byte: u8, bets: Seq<Bet>)
    ensures
        spin_payout(byte, bets) >= 0,
    decreases bets.len(),
{
    if bets.len() > 0 {
        lemma_spin_payout_nonneg(byte, bets.drop_last());
        lemma_bet_payout_nonneg(byte, bets.last());
    }
}

proof fn lemma_spin_payout_take_succ(byte: u8, bets: Seq<Bet>, j: int)
    requires
        0 <= j < bets.len(),
    ensures
        spin_payout(byte, bets.take(j + 1)) == spin_payout(byte, bets.take(j)) + bet_payout(
            byte,
            bets[j],
        ),
{
    assert(bets.take(j + 1).drop_last() =~= bets.take(j));
}

proof fn lemma_spin_payout_take_le(byte: u8, bets: Seq<Bet>, j: int)
    requires
        0 <= j <= bets.len(),
    ensures
        spin_payout(byte, bets.take(j)) <= spin_payout(byte, bets),
    decreases bets.len() - j,
{
    if j == bets.len() {
        assert(bets.take(j) =~= bets);
    } else {
        lemma_spin_payout_take_succ(byte, bets, j);
        lemma_bet_payout_nonneg(byte, bets[j]);
        lemma_spin_payout_take_le(byte, bets, j + 1);
    }
}

proof fn lemma_batch_payout_nonneg(stream: Seq<u8>, rows: Seq<Seq<Bet>>)
    ensures
        batch_payout(stream, rows) >= 0,
    decreases rows.len(),
{
    if rows.len() > 0 {
        lemma_batch_payout_nonneg(stream, rows.drop_last());
        lemma_spin_payout_nonneg(stream[rows.len() - 1], rows.last());
    }
}

proof fn lemma_batch_payout_take_succ(stream: Seq<u8>, rows: Seq<Seq<Bet>>, i: int)
    requires
        0 <= i < rows.len(),
    ensures
        batch_payout(stream, rows.take(i + 1)) == batch_payout(stream, rows.take(i))
            + spin_payout(stream[i], rows[i]),
{
    assert(rows.take(i + 1).drop_last() =~= rows.take(i));
}

proof fn lemma_batch_payout_take_le(stream: Seq<u8>, rows: Seq<Seq<Bet>>, i: int)
    requires
        0 <= i <= rows.len(),
    ensures
        batch_payout(stream, rows.take(i)) <= batch_payout(stream, rows),
    decreases rows.len() - i,
{
    if i == rows.len() {
        assert(rows.take(i) =~= rows);
    } else {
        lemma_batch_payout_take_succ(stream, rows, i);
        lemma_spin_payout_nonneg(stream[i], rows[i]);
        lemma_batch_payout_take_le(stream, rows, i + 1);
    }
}

/// The rejection an offered batch earns, if any, in the order the
/// checks are made: the cap, then bet legality, then the stake sum,
/// then the ledger counters.
pub open spec fn spec_spin_error(rows: Seq<Seq<Bet>>, amount: u128, l: Ledger) -> Option<
    SpinError,
> {
    if rows.len() >= SPIN_BATCH_CAP {
        Some(SpinError::TooManySpins)
    } else if !all_bets_legal(rows) {
        Some(SpinError::IllegalBet)
    } else if batch_stake(rows) > u128::MAX {
        Some(SpinError::Overflow)
    } else if batch_stake(rows) != amount {
        Some(SpinError::StakeMismatch)
    } else if !escrow_ok(l, amount as int, rows.len() as int, batch_bet_count(rows)) {
        Some(SpinError::Overflow)
    } else {
        None
    }
}

impl Contract {
    /// The engine's aggregate counters, in the order spin count, bet
    /// count, house balance, cumulative payout.
    pub fn stats(&self) -> (r: (u128, u128, u128, u128))
        ensures
            r == (
                self.ledger.spins_total,
                self.ledger.bets_total,
                self.ledger.house_balance,
                self.ledger.payout_total,
            ),
    {
        (
            self.ledger.spins_total,
            self.ledger.bets_total,
            self.ledger.house_balance,
            self.ledger.payout_total,
        )
    }

    /// Accepts or rejects a submitted batch. A batch is accepted when
    /// it is under the cap, every bet is legal, and the bet amounts sum
    /// to the attached stake exactly; the whole stake is then escrowed
    /// into the house balance and the spin and bet counters advance.
    /// Any rejection leaves the engine exactly as it was.
    pub fn spin(&mut self, spins: &Vec<Vec<Bet>>, amount: u128) -> (r: Result<(), SpinError>)
        ensures
            r is Err <==> spec_spin_error(batch_rows(spins@), amount, old(self).ledger) is Some,
            r is Err ==> r->Err_0 == spec_spin_error(
                batch_rows(spins@),
                amount,
                old(self).ledger,
            )->0 && *final(self) == *old(self),
            r is Ok ==> final(self).ledger == escrowed(
                old(self).ledger,
                amount as int,
                spins@.len() as int,
                batch_bet_count(batch_rows(spins@)),
            ),
    {
        let ghost rows = batch_rows(spins@);
        let n_spins = spins.len();
        if n_spins >= SPIN_BATCH_CAP {
            return Err(SpinError::TooManySpins);
        }
        // First pass: every bet must be legal; nothing is mutated yet.
        let mut i: usize = 0;
        while i < n_spins
            invariant
                i <= n_spins,
                n_spins == spins@.len(),
                n_spins < SPIN_BATCH_CAP,
                rows == batch_rows(spins@),
                forall|a: int, b: int|
                    0 <= a < i && 0 <= b < rows[a].len() ==> spec_bet_legal(rows[a][b]),
            decreases n_spins - i,
        {
            let bets = &spins[i];
            let m = bets.len();
            let mut j: usize = 0;
            while j < m
                invariant
                    j <= m,
                    i < n_spins,
                    n_spins == spins@.len(),
                    n_spins < SPIN_BATCH_CAP,
                    rows == batch_rows(spins@),
                    m == rows[i as int].len(),
                    bets@ == rows[i as int],
                    forall|b: int| 0 <= b < j ==> spec_bet_legal(rows[i as int][b]),
                decreases m - j,
            {
                if !bet_legal(&bets[j]) {
                    assert(!all_bets_legal(rows));
                    return Err(SpinError::IllegalBet);
                }
                j += 1;
            }
            i += 1;
        }
        assert(all_bets_legal(rows));
        // Second pass: sum the stake and count the bets, with checked
        // arithmetic on the sum.
        let mut total: u128 = 0;
        let mut n_bets: u128 = 0;
        let mut i: usize = 0;
        while i < n_spins
            invariant
                i <= n_spins,
                n_spins == spins@.len(),
                n_spins < SPIN_BATCH_CAP,
                rows == batch_rows(spins@),
                all_bets_legal(rows),
                total == batch_stake(rows.take(i as int)),
                n_bets == batch_bet_count(rows.take(i as int)),
                n_bets <= i * 0x1_0000_0000_0000_0000,
            decreases n_spins - i,
        {
            let bets = &spins[i];
            let m = bets.len();
            let mut row_total: u128 = 0;
            let mut j: usize = 0;
            while j < m
                invariant
                    j <= m,
                    i < n_spins,
                    n_spins == spins@.len(),
                    n_spins < SPIN_BATCH_CAP,
                    rows == batch_rows(spins@),
                    all_bets_legal(rows),
                    m == rows[i as int].len(),
                    bets@ == rows[i as int],
                    row_total == spin_stake(rows[i as int].take(j as int)),
                decreases m - j,
            {
                proof {
                    lemma_spin_stake_take_succ(rows[i as int], j as int);
                }
                row_total = match row_total.checked_add(bets[j].amount) {
                    Some(v) => v,
                    None => {
                        proof {
                            lemma_spin_stake_take_le(rows[i as int], j + 1);
                            lemma_batch_stake_take_succ(rows, i as int);
                            lemma_batch_stake_take_le(rows, i + 1);
                            lemma_batch_stake_nonneg(rows.take(i as int));
                        }
                        return Err(SpinError::Overflow);
                    },
                };
                j += 1;
            }
            proof {
                assert(rows[i as int].take(m as int) =~= rows[i as int]);
                lemma_batch_stake_take_succ(rows, i as int);
                lemma_batch_bet_count_take_succ(rows, i as int);
            }
            total = match total.checked_add(row_total) {
                Some(v) => v,
                None => {
                    proof {
                        lemma_batch_stake_take_le(rows, i + 1);
                    }
                    return Err(SpinError::Overflow);
                },
            };
            n_bets = n_bets + (m as u128);
            i += 1;
        }
        proof {
            assert(rows.take(n_spins as int) =~= rows);
        }
        if total != amount {
            return Err(SpinError::StakeMismatch);
        }
        match self.ledger.escrow(amount, n_spins as u128, n_bets) {
            Ok(()) => Ok(()),
            Err(_) => Err(SpinError::Overflow),
        }
    }
}

impl Contract {
    /// Resolves an accepted batch against the randomness authority's
    /// answer. A failed oracle call yields the all-false sentinel and
    /// leaves the ledger untouched — the escrowed stake is not
    /// refunded. A successful answer is decoded into the byte stream,
    /// every bet is evaluated (spin `i` against byte `i`), the winnings
    /// are settled against the ledger, and the per-bet outcomes are
    /// returned together with the payout owed to the bettor. Any fatal
    /// failure leaves the ledger exactly as it was.
    pub fn mpc_callback(
        &mut self,
        call_result: Option<&SignatureResponse>,
        spins: &Vec<Vec<Bet>>,
    ) -> (r: Result<(Vec<Vec<(bool, u8, bool, u8)>>, u128), ResolveError>)
        requires
            batch_in_domain(batch_rows(spins@)),
        ensures
            call_result is None ==> ({
                &&& r is Ok
                &&& r->Ok_0.1 == 0
                &&& r->Ok_0.0@.len() == 1
                &&& r->Ok_0.0@[0]@ == seq![(false, 0u8, false, 0u8)]
                &&& *final(self) == *old(self)
            }),
            call_result matches Some(resp) ==> ({
                let rows = batch_rows(spins@);
                let big_r = resp.big_r_affine_point@;
                let scalar = resp.s_scalar@;
                let stream = random_stream(big_r, scalar);
                let err = spec_resolve_error(big_r, scalar, rows, old(self).ledger);
                &&& (r is Err <==> err is Some)
                &&& (r is Err ==> r->Err_0 == err->0 && *final(self) == *old(self))
                &&& (r is Ok ==> {
                    &&& r->Ok_0.1 == batch_payout(stream, rows)
                    &&& r->Ok_0.0@.len() == rows.len()
                    &&& (forall|i: int|
                        0 <= i < rows.len() ==> r->Ok_0.0@[i]@ == eval_row(stream[i], rows[i]))
                    &&& final(self).ledger == settled(
                        old(self).ledger,
                        batch_payout(stream, rows),
                    )
                })
            }),
    {
        let resp = match call_result {
            Some(resp) => resp,
            None => {
                let mut sentinel: Vec<Vec<(bool, u8, bool, u8)>> = Vec::new();
                let mut row: Vec<(bool, u8, bool, u8)> = Vec::new();
                row.push((false, 0, false, 0));
                sentinel.push(row);
                proof {
                    assert(sentinel@[0]@ =~= seq![(false, 0u8, false, 0u8)]);
                }
                return Ok((sentinel, 0));
            },
        };
        let ghost rows = batch_rows(spins@);
        let ghost big_r = resp.big_r_affine_point@;
        let ghost scalar = resp.s_scalar@;
        let ghost stream = random_stream(big_r, scalar);
        let mut r_bytes = match hex_decode(resp.big_r_affine_point.as_str()) {
            Some(v) => v,
            None => {
                return Err(ResolveError::BigRDecode);
            },
        };
        let mut s_bytes = match hex_decode(resp.s_scalar.as_str()) {
            Some(v) => v,
            None => {
                return Err(ResolveError::ScalarDecode);
            },
        };
        if r_bytes.len() == 0 {
            return Err(ResolveError::EmptySignature);
        }
        // The leading byte of the point encoding is a compression
        // flag, not random material.
        r_bytes.remove(0);
        s_bytes.append(&mut r_bytes);
        proof {
            assert(hex_bytes(big_r).remove(0) =~= hex_bytes(big_r).skip(1));
            assert(s_bytes@ == stream);
        }
        let n_spins = spins.len();
        if s_bytes.len() < n_spins {
            return Err(ResolveError::ShortRandomness);
        }
        let mut results: Vec<Vec<(bool, u8, bool, u8)>> = Vec::new();
        let mut payout: u128 = 0;
        let mut i: usize = 0;
        while i < n_spins
            invariant
                call_result == Some(resp),
                big_r == resp.big_r_affine_point@,
                scalar == resp.s_scalar@,
                stream == random_stream(big_r, scalar),
                is_hex_str(big_r),
                is_hex_str(scalar),
                hex_bytes(big_r).len() > 0,
                i <= n_spins,
                n_spins == spins@.len(),
                rows == batch_rows(spins@),
                batch_in_domain(rows),
                s_bytes@ == stream,
                n_spins <= stream.len(),
                results@.len() == i,
                forall|k: int| 0 <= k < i ==> results@[k]@ == eval_row(stream[k], rows[k]),
                payout == batch_payout(stream, rows.take(i as int)),
                *self == *old(self),
            decreases n_spins - i,
        {
            let bets = &spins[i];
            let byte = s_bytes[i];
            let m = bets.len();
            let mut row: Vec<(bool, u8, bool, u8)> = Vec::new();
            let mut j: usize = 0;
            while j < m
                invariant
                    call_result == Some(resp),
                    big_r == resp.big_r_affine_point@,
                    scalar == resp.s_scalar@,
                    stream == random_stream(big_r, scalar),
                    is_hex_str(big_r),
                    is_hex_str(scalar),
                    hex_bytes(big_r).len() > 0,
                    j <= m,
                    i < n_spins,
                    n_spins == spins@.len(),
                    n_spins <= stream.len(),
                    rows == batch_rows(spins@),
                    batch_in_domain(rows),
                    byte == stream[i as int],
                    m == rows[i as int].len(),
                    bets@ == rows[i as int],
                    row@.len() == j,
                    forall|k: int|
                        0 <= k < j ==> row@[k] == spec_bet_eval(byte, rows[i as int][k]),
                    payout == batch_payout(stream, rows.take(i as int)) + spin_payout(
                        byte,
                        rows[i as int].take(j as int),
                    ),
                    *self == *old(self),
                decreases m - j,
            {
                let b = &bets[j];
                let (win, number, red, multiple) = bet_eval(byte, b);
                proof {
                    lemma_spin_payout_take_succ(byte, rows[i as int], j as int);
                }
                if multiple > 0 {
                    let mult128: u128 = multiple as u128 + 1;
                    let prod = match b.amount.checked_mul(mult128) {
                        Some(p) => p,
                        None => {
                            proof {
                                lemma_payout_overflow_chain(stream, rows, i as int, j as int);
                            }
                            return Err(ResolveError::PayoutOverflow);
                        },
                    };
                    payout = match payout.checked_add(prod) {
                        Some(p) => p,
                        None => {
                            proof {
                                lemma_payout_overflow_chain(stream, rows, i as int, j as int);
                            }
                            return Err(ResolveError::PayoutOverflow);
                        },
                    };
                }
                row.push((win, number, red, multiple));
                j += 1;
            }
            proof {
                assert(rows[i as int].take(m as int) =~= rows[i as int]);
                assert(row@ =~= eval_row(stream[i as int], rows[i as int]));
                lemma_batch_payout_take_succ(stream, rows, i as int);
            }
            results.push(row);
            i += 1;
        }
        proof {
            assert(rows.take(n_spins as int) =~= rows);
        }
        match self.ledger.settle(payout) {
            Ok(()) => Ok((results, payout)),
            Err(LedgerError::HouseEmpty) => Err(ResolveError::HouseEmpty),
            Err(LedgerError::Overflow) => Err(ResolveError::PayoutTotalOverflow),
        }
    }
}

/// From a point in the batch where the partial winnings already exceed
/// what a `u128` can hold, the whole batch's payout does too.
proof fn lemma_payout_overflow_chain(stream: Seq<u8>, rows: Seq<Seq<Bet>>, i: int, j: int)
    requires
        0 <= i < rows.len(),
        0 <= j < rows[i].len(),
        batch_payout(stream, rows.take(i)) + spin_payout(stream[i], rows[i].take(j + 1))
            > u128::MAX,
    ensures
        batch_payout(stream, rows) > u128::MAX,
{
    lemma_spin_payout_take_le(stream[i], rows[i], j + 1);
    lemma_batch_payout_take_succ(stream, rows, i);
    lemma_batch_payout_take_le(stream, rows, i + 1);
}

impl Default for Contract {
    /// A fresh engine: zeroed counters and the opening house balance.
    fn default() -> (c: Contract)
        ensures
            c.ledger == (Ledger {
                spins_total: 0,
                bets_total: 0,
                house_balance: OPENING_HOUSE_BALANCE,
                payout_total: 0,
            }),
    {
        Contract { ledger: Ledger::new(OPENING_HOUSE_BALANCE) }
    }
}

} // verus!
