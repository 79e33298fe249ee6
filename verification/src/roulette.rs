//! Bet kinds, the wheel layout, bet validation and bet evaluation.

use vstd::prelude::*;

verus! {

/// The closed set of supported roulette bet categories.
#[derive(Clone, Copy, PartialEq, Eq, Structural, Debug)]
pub enum BetKind {
    // Inside bets
    Straight,
    Split,
    Street,
    Corner,
    SixLine,
    // Outside bets
    Column,
    Dozen,
    Red,
    Black,
    Odd,
    Even,
    Low,
    High,
}

/// A single wager: a category, a stake in the smallest currency unit,
/// and a selector whose meaning depends on the category (a wheel number
/// for `Straight`, a table index for the grouped inside bets, a 0–2
/// group index for `Column` and `Dozen`, unused otherwise).
#[derive(Clone, Copy, PartialEq, Eq, Structural, Debug)]
pub struct Bet {
    pub kind: BetKind,
    pub amount: u128,
    pub number: u8,
}

/// Number of enumerated split (pair) bets.
pub const SPLIT_BET_COUNT: u8 = 57;

/// Number of enumerated street (row-of-three) bets.
pub const STREET_BET_COUNT: u8 = 12;

/// Number of enumerated corner (quad) bets.
pub const CORNER_BET_COUNT: u8 = 22;

/// Number of enumerated six-line (double-row) bets.
pub const SIX_LINE_BET_COUNT: u8 = 11;

/// The wheel permutation: maps a reduced random index (0–36) to the
/// displayed number. Index 0 is the zero slot; the colour of a non-zero
/// outcome is derived from the parity of the index, not of the number.
pub open spec fn spec_wheel(i: int) -> u8 {
    if i == 0 { 0 }
    else if i == 1 { 32 }
    else if i == 2 { 15 }
    else if i == 3 { 19 }
    else if i == 4 { 4 }
    else if i == 5 { 21 }
    else if i == 6 { 2 }
    else if i == 7 { 25 }
    else if i == 8 { 17 }
    else if i == 9 { 34 }
    else if i == 10 { 6 }
    else if i == 11 { 27 }
    else if i == 12 { 13 }
    else if i == 13 { 36 }
    else if i == 14 { 11 }
    else if i == 15 { 30 }
    else if i == 16 { 8 }
    else if i == 17 { 23 }
    else if i == 18 { 10 }
    else if i == 19 { 5 }
    else if i == 20 { 24 }
    else if i == 21 { 16 }
    else if i == 22 { 33 }
    else if i == 23 { 1 }
    else if i == 24 { 20 }
    else if i == 25 { 14 }
    else if i == 26 { 31 }
    else if i == 27 { 9 }
    else if i == 28 { 22 }
    else if i == 29 { 18 }
    else if i == 30 { 29 }
    else if i == 31 { 7 }
    else if i == 32 { 28 }
    else if i == 33 { 12 }
    else if i == 34 { 35 }
    else if i == 35 { 3 }
    else { 26 }
}

/// Looks up the displayed number for a reduced wheel index.
pub fn wheel_number(index: u8) -> (n: u8)
    requires
        index < 37,
    ensures
        n == spec_wheel(index as int),
{
    match index {
        0 => 0,
        1 => 32,
        2 => 15,
        3 => 19,
        4 => 4,
        5 => 21,
        6 => 2,
        7 => 25,
        8 => 17,
        9 => 34,
        10 => 6,
        11 => 27,
        12 => 13,
        13 => 36,
        14 => 11,
        15 => 30,
        16 => 8,
        17 => 23,
        18 => 10,
        19 => 5,
        20 => 24,
        21 => 16,
        22 => 33,
        23 => 1,
        24 => 20,
        25 => 14,
        26 => 31,
        27 => 9,
        28 => 22,
        29 => 18,
        30 => 29,
        31 => 7,
        32 => 28,
        33 => 12,
        34 => 35,
        35 => 3,
        _ => 26,
    }
}

/// The enumerated split (pair) bets, in table order: within each row of
/// the betting layout, the horizontal pairs first, then the vertical
/// pairs down to the next row.
pub open spec fn spec_split(i: int) -> (u8, u8) {
    if i == 0 { (1, 2) }
    else if i == 1 { (2, 3) }
    else if i == 2 { (1, 4) }
    else if i == 3 { (2, 5) }
    else if i == 4 { (3, 6) }
    else if i == 5 { (4, 5) }
    else if i == 6 { (5, 6) }
    else if i == 7 { (4, 7) }
    else if i == 8 { (5, 8) }
    else if i == 9 { (6, 9) }
    else if i == 10 { (7, 8) }
    else if i == 11 { (8, 9) }
    else if i == 12 { (7, 10) }
    else if i == 13 { (8, 11) }
    else if i == 14 { (9, 12) }
    else if i == 15 { (10, 11) }
    else if i == 16 { (11, 12) }
    else if i == 17 { (10, 13) }
    else if i == 18 { (11, 14) }
    else if i == 19 { (12, 15) }
    else if i == 20 { (13, 14) }
    else if i == 21 { (14, 15) }
    else if i == 22 { (13, 16) }
    else if i == 23 { (14, 17) }
    else if i == 24 { (15, 18) }
    else if i == 25 { (16, 17) }
    else if i == 26 { (17, 18) }
    else if i == 27 { (16, 19) }
    else if i == 28 { (17, 20) }
    else if i == 29 { (18, 21) }
    else if i == 30 { (19, 20) }
    else if i == 31 { (20, 21) }
    else if i == 32 { (19, 22) }
    else if i == 33 { (20, 23) }
    else if i == 34 { (21, 24) }
    else if i == 35 { (22, 23) }
    else if i == 36 { (23, 24) }
    else if i == 37 { (22, 25) }
    else if i == 38 { (23, 26) }
    else if i == 39 { (24, 27) }
    else if i == 40 { (25, 26) }
    else if i == 41 { (26, 27) }
    else if i == 42 { (25, 28) }
    else if i == 43 { (26, 29) }
    else if i == 44 { (27, 30) }
    else if i == 45 { (28, 29) }
    else if i == 46 { (29, 30) }
    else if i == 47 { (28, 31) }
    else if i == 48 { (29, 32) }
    else if i == 49 { (30, 33) }
    else if i == 50 { (31, 32) }
    else if i == 51 { (32, 33) }
    else if i == 52 { (31, 34) }
    else if i == 53 { (32, 35) }
    else if i == 54 { (33, 36) }
    else if i == 55 { (34, 35) }
    else { (35, 36) }
}

/// Looks up the pair of numbers covered by a split bet.
pub fn split_pair(index: u8) -> (p: (u8, u8))
    requires
        index < SPLIT_BET_COUNT,
    ensures
        p == spec_split(index as int),
{
    match index {
        0 => (1, 2),
        1 => (2, 3),
        2 => (1, 4),
        3 => (2, 5),
        4 => (3, 6),
        5 => (4, 5),
        6 => (5, 6),
        7 => (4, 7),
        8 => (5, 8),
        9 => (6, 9),
        10 => (7, 8),
        11 => (8, 9),
        12 => (7, 10),
        13 => (8, 11),
        14 => (9, 12),
        15 => (10, 11),
        16 => (11, 12),
        17 => (10, 13),
        18 => (11, 14),
        19 => (12, 15),
        20 => (13, 14),
        21 => (14, 15),
        22 => (13, 16),
        23 => (14, 17),
        24 => (15, 18),
        25 => (16, 17),
        26 => (17, 18),
        27 => (16, 19),
        28 => (17, 20),
        29 => (18, 21),
        30 => (19, 20),
        31 => (20, 21),
        32 => (19, 22),
        33 => (20, 23),
        34 => (21, 24),
        35 => (22, 23),
        36 => (23, 24),
        37 => (22, 25),
        38 => (23, 26),
        39 => (24, 27),
        40 => (25, 26),
        41 => (26, 27),
        42 => (25, 28),
        43 => (26, 29),
        44 => (27, 30),
        45 => (28, 29),
        46 => (29, 30),
        47 => (28, 31),
        48 => (29, 32),
        49 => (30, 33),
        50 => (31, 32),
        51 => (32, 33),
        52 => (31, 34),
        53 => (32, 35),
        54 => (33, 36),
        55 => (34, 35),
        _ => (35, 36),
    }
}

/// The enumerated street bets: each covers one row of three numbers.
pub open spec fn spec_street(i: int) -> (u8, u8, u8) {
    if i == 0 { (1, 2, 3) }
    else if i == 1 { (4, 5, 6) }
    else if i == 2 { (7, 8, 9) }
    else if i == 3 { (10, 11, 12) }
    else if i == 4 { (13, 14, 15) }
    else if i == 5 { (16, 17, 18) }
    else if i == 6 { (19, 20, 21) }
    else if i == 7 { (22, 23, 24) }
    else if i == 8 { (25, 26, 27) }
    else if i == 9 { (28, 29, 30) }
    else if i == 10 { (31, 32, 33) }
    else { (34, 35, 36) }
}

/// Looks up the triple of numbers covered by a street bet.
pub fn street_triple(index: u8) -> (t: (u8, u8, u8))
    requires
        index < STREET_BET_COUNT,
    ensures
        t == spec_street(index as int),
{
    match index {
        0 => (1, 2, 3),
        1 => (4, 5, 6),
        2 => (7, 8, 9),
        3 => (10, 11, 12),
        4 => (13, 14, 15),
        5 => (16, 17, 18),
        6 => (19, 20, 21),
        7 => (22, 23, 24),
        8 => (25, 26, 27),
        9 => (28, 29, 30),
        10 => (31, 32, 33),
        _ => (34, 35, 36),
    }
}

/// The enumerated corner bets: each covers a 2×2 square of the layout.
pub open spec fn spec_corner(i: int) -> (u8, u8, u8, u8) {
    if i == 0 { (1, 2, 4, 5) }
    else if i == 1 { (2, 3, 5, 6) }
    else if i == 2 { (4, 5, 7, 8) }
    else if i == 3 { (5, 6, 8, 9) }
    else if i == 4 { (7, 8, 10, 11) }
    else if i == 5 { (8, 9, 11, 12) }
    else if i == 6 { (10, 11, 13, 14) }
    else if i == 7 { (11, 12, 14, 15) }
    else if i == 8 { (13, 14, 16, 17) }
    else if i == 9 { (14, 15, 17, 18) }
    else if i == 10 { (16, 17, 19, 20) }
    else if i == 11 { (17, 18, 20, 21) }
    else if i == 12 { (19, 20, 22, 23) }
    else if i == 13 { (20, 21, 23, 24) }
    else if i == 14 { (22, 23, 25, 26) }
    else if i == 15 { (23, 24, 26, 27) }
    else if i == 16 { (25, 26, 28, 29) }
    else if i == 17 { (26, 27, 29, 30) }
    else if i == 18 { (28, 29, 31, 32) }
    else if i == 19 { (29, 30, 32, 33) }
    else if i == 20 { (31, 32, 34, 35) }
    else { (32, 33, 35, 36) }
}

/// Looks up the four numbers covered by a corner bet.
pub fn corner_quad(index: u8) -> (q: (u8, u8, u8, u8))
    requires
        index < CORNER_BET_COUNT,
    ensures
        q == spec_corner(index as int),
{
    match index {
        0 => (1, 2, 4, 5),
        1 => (2, 3, 5, 6),
        2 => (4, 5, 7, 8),
        3 => (5, 6, 8, 9),
        4 => (7, 8, 10, 11),
        5 => (8, 9, 11, 12),
        6 => (10, 11, 13, 14),
        7 => (11, 12, 14, 15),
        8 => (13, 14, 16, 17),
        9 => (14, 15, 17, 18),
        10 => (16, 17, 19, 20),
        11 => (17, 18, 20, 21),
        12 => (19, 20, 22, 23),
        13 => (20, 21, 23, 24),
        14 => (22, 23, 25, 26),
        15 => (23, 24, 26, 27),
        16 => (25, 26, 28, 29),
        17 => (26, 27, 29, 30),
        18 => (28, 29, 31, 32),
        19 => (29, 30, 32, 33),
        20 => (31, 32, 34, 35),
        _ => (32, 33, 35, 36),
    }
}

/// The enumerated six-line bets: each covers two adjacent rows.
pub open spec fn spec_six_line(i: int) -> (u8, u8, u8, u8, u8, u8) {
    if i == 0 { (1, 2, 3, 4, 5, 6) }
    else if i == 1 { (4, 5, 6, 7, 8, 9) }
    else if i == 2 { (7, 8, 9, 10, 11, 12) }
    else if i == 3 { (10, 11, 12, 13, 14, 15) }
    else if i == 4 { (13, 14, 15, 16, 17, 18) }
    else if i == 5 { (16, 17, 18, 19, 20, 21) }
    else if i == 6 { (19, 20, 21, 22, 23, 24) }
    else if i == 7 { (22, 23, 24, 25, 26, 27) }
    else if i == 8 { (25, 26, 27, 28, 29, 30) }
    else if i == 9 { (28, 29, 30, 31, 32, 33) }
    else { (31, 32, 33, 34, 35, 36) }
}

/// Looks up the six numbers covered by a six-line bet.
pub fn six_line_numbers(index: u8) -> (s: (u8, u8, u8, u8, u8, u8))
    requires
        index < SIX_LINE_BET_COUNT,
    ensures
        s == spec_six_line(index as int),
{
    match index {
        0 => (1, 2, 3, 4, 5, 6),
        1 => (4, 5, 6, 7, 8, 9),
        2 => (7, 8, 9, 10, 11, 12),
        3 => (10, 11, 12, 13, 14, 15),
        4 => (13, 14, 15, 16, 17, 18),
        5 => (16, 17, 18, 19, 20, 21),
        6 => (19, 20, 21, 22, 23, 24),
        7 => (22, 23, 24, 25, 26, 27),
        8 => (25, 26, 27, 28, 29, 30),
        9 => (28, 29, 30, 31, 32, 33),
        _ => (31, 32, 33, 34, 35, 36),
    }
}

/// Whether a bet's selector lies in the domain of its kind.
pub open spec fn spec_bet_legal(bet: Bet) -> bool {
    match bet.kind {
        BetKind::Straight => 1 <= bet.number <= 36,
        BetKind::Split => bet.number < SPLIT_BET_COUNT,
        BetKind::Street => bet.number < STREET_BET_COUNT,
        BetKind::Corner => bet.number < CORNER_BET_COUNT,
        BetKind::SixLine => bet.number < SIX_LINE_BET_COUNT,
        BetKind::Column => bet.number < 3,
        BetKind::Dozen => bet.number < 3,
        BetKind::Black => true,
        BetKind::Red => true,
        BetKind::Odd => true,
        BetKind::Even => true,
        BetKind::Low => true,
        BetKind::High => true,
    }
}

/// Checks that the bet's selector lies in the domain of its kind.
/// Kinds without a selector are always legal.
pub fn bet_legal(bet: &Bet) -> (r: bool)
    ensures
        r == spec_bet_legal(*bet),
{
    match bet.kind {
        BetKind::Straight => bet.number > 0 && bet.number < 37,
        BetKind::Split => bet.number < SPLIT_BET_COUNT,
        BetKind::Street => bet.number < STREET_BET_COUNT,
        BetKind::Corner => bet.number < CORNER_BET_COUNT,
        BetKind::SixLine => bet.number < SIX_LINE_BET_COUNT,
        BetKind::Column => bet.number < 3,
        BetKind::Dozen => bet.number < 3,
        BetKind::Black => true,
        BetKind::Red => true,
        BetKind::Odd => true,
        BetKind::Even => true,
        BetKind::Low => true,
        BetKind::High => true,
    }
}

/// Whether a bet's selector can be looked up without leaving its
/// kind's table. This is all `bet_eval` needs; `spec_bet_legal` is
/// strictly stronger.
pub open spec fn bet_in_domain(bet: Bet) -> bool {
    match bet.kind {
        BetKind::Split => bet.number < SPLIT_BET_COUNT,
        BetKind::Street => bet.number < STREET_BET_COUNT,
        BetKind::Corner => bet.number < CORNER_BET_COUNT,
        BetKind::SixLine => bet.number < SIX_LINE_BET_COUNT,
        _ => true,
    }
}

/// The reduced wheel index drawn from one random byte. Reducing 0–255
/// modulo 37 is deliberately not uniform: indices 0–34 arise from 7
/// bytes each, indices 35 and 36 from 6 bytes each.
pub open spec fn winning_index(byte: u8) -> int {
    byte as int % 37
}

/// The fixed payout multiple per winning unit staked for each kind.
pub open spec fn kind_multiple(kind: BetKind) -> u8 {
    match kind {
        BetKind::Straight => 35,
        BetKind::Split => 17,
        BetKind::Street => 11,
        BetKind::Corner => 8,
        BetKind::SixLine => 5,
        BetKind::Column => 2,
        BetKind::Dozen => 2,
        BetKind::Black => 1,
        BetKind::Red => 1,
        BetKind::Odd => 1,
        BetKind::Even => 1,
        BetKind::Low => 1,
        BetKind::High => 1,
    }
}

/// Whether a bet of the given kind and selector wins when the wheel
/// stops at the given reduced index.
pub open spec fn spec_wins(index: int, kind: BetKind, number: u8) -> bool {
    let n = spec_wheel(index);
    let red = index % 2 == 1;
    match kind {
        BetKind::Straight => n == number,
        BetKind::Split => {
            let (a, b) = spec_split(number as int);
            n == a || n == b
        },
        BetKind::Street => {
            let (a, b, c) = spec_street(number as int);
            n == a || n == b || n == c
        },
        BetKind::Corner => {
            let (a, b, c, d) = spec_corner(number as int);
            n == a || n == b || n == c || n == d
        },
        BetKind::SixLine => {
            let (a, b, c, d, e, f) = spec_six_line(number as int);
            n == a || n == b || n == c || n == d || n == e || n == f
        },
        BetKind::Column => n > 0 && (n - 1) % 3 == number,
        BetKind::Dozen => n > 0 && (n - 1) / 12 == number,
        BetKind::Black => n > 0 && !red,
        BetKind::Red => n > 0 && red,
        BetKind::Odd => n > 0 && n % 2 == 1,
        BetKind::Even => n > 0 && n % 2 == 0,
        BetKind::Low => n > 0 && n < 19,
        BetKind::High => n > 18,
    }
}

/// The full outcome of evaluating one bet against one random byte:
/// `(won, winning number, colour flag, payout multiple or zero)`.
pub open spec fn spec_bet_eval(byte: u8, bet: Bet) -> (bool, u8, bool, u8) {
    let i = winning_index(byte);
    let won = spec_wins(i, bet.kind, bet.number);
    (won, spec_wheel(i), i % 2 == 1, if won { kind_multiple(bet.kind) } else { 0 })
}

/// Evaluates one bet against one random byte. The outcome is a pure
/// function of the two arguments: the byte is reduced modulo 37, the
/// wheel gives the winning number, the index's parity gives the colour,
/// and the bet's kind decides the win condition and the multiple. On a
/// loss the reported multiple is zero.
pub fn bet_eval(rng_val: u8, bet: &Bet) -> (r: (bool, u8, bool, u8))
    requires
        bet_in_domain(*bet),
    ensures
        r == spec_bet_eval(rng_val, *bet),
{
    let index: u8 = rng_val % 37;
    let number: u8 = wheel_number(index);
    let red: bool = index % 2 == 1;
    let (win, multiple): (bool, u8) = match bet.kind {
        BetKind::Straight => (bet.number == number, 35),
        BetKind::Split => {
            let (a, b) = split_pair(bet.number);
            (number == a || number == b, 17)
        },
        BetKind::Street => {
            let (a, b, c) = street_triple(bet.number);
            (number == a || number == b || number == c, 11)
        },
        BetKind::Corner => {
            let (a, b, c, d) = corner_quad(bet.number);
            (number == a || number == b || number == c || number == d, 8)
        },
        BetKind::SixLine => {
            let (a, b, c, d, e, f) = six_line_numbers(bet.number);
            (
                number == a || number == b || number == c || number == d || number == e
                    || number == f,
                5,
            )
        },
        BetKind::Column => (number > 0 && (number - 1) % 3 == bet.number, 2),
        BetKind::Dozen => (number > 0 && (number - 1) / 12 == bet.number, 2),
        BetKind::Black => (number > 0 && !red, 1),
        BetKind::Red => (number > 0 && red, 1),
        BetKind::Odd => (number > 0 && number % 2 == 1, 1),
        BetKind::Even => (number > 0 && number % 2 == 0, 1),
        BetKind::Low => (number > 0 && number < 19, 1),
        BetKind::High => (number > 18, 1),
    };
    if win {
        (win, number, red, multiple)
    } else {
        (false, number, red, 0)
    }
}

/// Law: the wheel is a permutation of 0–36. Index 0 is the zero slot
/// and every other index carries a distinct non-zero number, so a
/// statement counted over the 37 reduced indices is equally one about
/// the 37 displayed numbers.
#[verifier::rlimit(60)]
pub proof fn lemma_wheel_permutation()
    ensures
        spec_wheel(0) == 0,
        forall|i: int| 1 <= i < 37 ==> 1 <= #[trigger] spec_wheel(i) <= 36,
        forall|i: int, j: int|
            0 <= i < 37 && 0 <= j < 37 && i != j ==> spec_wheel(i) != spec_wheel(j),
{
}

/// How many of the reduced indices `0..n` the given bet wins at.
pub open spec fn win_count(kind: BetKind, number: u8, n: int) -> int
    decreases n,
{
    if n <= 0 {
        0
    } else {
        win_count(kind, number, n - 1) + if spec_wins(n - 1, kind, number) {
            1int
        } else {
            0int
        }
    }
}

/// The column group a non-zero outcome at this index belongs to.
pub open spec fn column_group(i: int) -> u8 {
    ((spec_wheel(i) as int - 1) % 3) as u8
}

/// The dozen group a non-zero outcome at this index belongs to.
pub open spec fn dozen_group(i: int) -> u8 {
    ((spec_wheel(i) as int - 1) / 12) as u8
}

/// Law: the three column bets partition the 36 non-zero wheel outcomes
/// into equal groups of twelve, and so do the three dozen bets. Each
/// group wins at exactly 12 of the 37 reduced indices; every non-zero
/// outcome belongs to exactly one column group and one dozen group;
/// the zero slot (index 0) belongs to none.
pub proof fn lemma_column_dozen_partition()
    ensures
        forall|g: u8| g < 3 ==> win_count(BetKind::Column, g, 37) == 12,
        forall|g: u8| g < 3 ==> win_count(BetKind::Dozen, g, 37) == 12,
        forall|i: int|
            1 <= i < 37 ==> column_group(i) < 3 && spec_wins(i, BetKind::Column, column_group(i)),
        forall|i: int|
            1 <= i < 37 ==> dozen_group(i) < 3 && spec_wins(i, BetKind::Dozen, dozen_group(i)),
        forall|i: int, g: u8|
            1 <= i < 37 && spec_wins(i, BetKind::Column, g) ==> g == column_group(i),
        forall|i: int, g: u8|
            1 <= i < 37 && spec_wins(i, BetKind::Dozen, g) ==> g == dozen_group(i),
        forall|g: u8| !spec_wins(0, BetKind::Column, g) && !spec_wins(0, BetKind::Dozen, g),
{
    assert forall|i: int| 1 <= i < 37 implies 1 <= #[trigger] spec_wheel(i) <= 36 by {};
    assert(win_count(BetKind::Column, 0, 37) == 12) by {
        reveal_with_fuel(win_count, 40);
    };
    assert(win_count(BetKind::Column, 1, 37) == 12) by {
        reveal_with_fuel(win_count, 40);
    };
    assert(win_count(BetKind::Column, 2, 37) == 12) by {
        reveal_with_fuel(win_count, 40);
    };
    assert(win_count(BetKind::Dozen, 0, 37) == 12) by {
        reveal_with_fuel(win_count, 40);
    };
    assert(win_count(BetKind::Dozen, 1, 37) == 12) by {
        reveal_with_fuel(win_count, 40);
    };
    assert(win_count(BetKind::Dozen, 2, 37) == 12) by {
        reveal_with_fuel(win_count, 40);
    };
}

/// Law: each of the six even-money bets — red, black, odd, even, low,
/// high — wins at exactly 18 of the 37 reduced indices, and never at
/// index 0, the zero slot. The selector of an even-money bet is
/// irrelevant to its outcome.
pub proof fn lemma_even_money_coverage()
    ensures
        win_count(BetKind::Red, 0, 37) == 18,
        win_count(BetKind::Black, 0, 37) == 18,
        win_count(BetKind::Odd, 0, 37) == 18,
        win_count(BetKind::Even, 0, 37) == 18,
        win_count(BetKind::Low, 0, 37) == 18,
        win_count(BetKind::High, 0, 37) == 18,
        forall|number: u8|
            !spec_wins(0, BetKind::Red, number) && !spec_wins(0, BetKind::Black, number)
                && !spec_wins(0, BetKind::Odd, number) && !spec_wins(0, BetKind::Even, number)
                && !spec_wins(0, BetKind::Low, number) && !spec_wins(0, BetKind::High, number),
{
    assert(win_count(BetKind::Red, 0, 37) == 18) by {
        reveal_with_fuel(win_count, 40);
    };
    assert(win_count(BetKind::Black, 0, 37) == 18) by {
        reveal_with_fuel(win_count, 40);
    };
    assert(win_count(BetKind::Odd, 0, 37) == 18) by {
        reveal_with_fuel(win_count, 40);
    };
    assert(win_count(BetKind::Even, 0, 37) == 18) by {
        reveal_with_fuel(win_count, 40);
    };
    assert(win_count(BetKind::Low, 0, 37) == 18) by {
        reveal_with_fuel(win_count, 40);
    };
    assert(win_count(BetKind::High, 0, 37) == 18) by {
        reveal_with_fuel(win_count, 40);
    };
}

} // verus!
