//! A three-reel slot machine.
//!
//! All three reels share one weighted strip, so each position is an
//! independent draw. That keeps the maths simple enough to state the return to
//! player exactly rather than estimate it: see [`theoretical_return_ppm`] and
//! [`lemma_the_house_keeps_a_small_edge`], which pin the house edge so an
//! accidental paytable edit cannot quietly make the game unprofitable (or
//! unwinnable).

use rand::rngs::StdRng;
use vstd::prelude::*;

use crate::arith::{saturate, saturating_mul};
use crate::random::roll_below;

verus! {

pub const REELS: usize = 3;

/// The lowest and highest a player may stake on one spin.
pub const MIN_BET: i64 = 1;

pub const MAX_BET: i64 = 500;

#[derive(Debug, Clone, Copy, PartialEq, Eq, Structural)]
pub enum Symbol {
    Clubs,
    Diamonds,
    Hearts,
    Spades,
    Star,
    Seven,
}

/// One entry per symbol: how often it appears on a reel, and what it pays for
/// three of a kind or exactly two of a kind, as a multiple of the stake.
#[derive(Debug, Clone, Copy, PartialEq, Eq, Structural)]
pub struct Payline {
    pub symbol: Symbol,
    pub weight: u32,
    pub three: i64,
    pub pair: i64,
}

/// The paytable, most common symbol first. Weights sum to 100, so a weight
/// reads directly as a percentage chance of landing on any one reel.
pub fn paylines() -> (table: [Payline; 6])
    ensures
        table@ == lines(),
{
    let table = [
        Payline { symbol: Symbol::Clubs, weight: 30, three: 4, pair: 1 },
        Payline { symbol: Symbol::Diamonds, weight: 25, three: 6, pair: 1 },
        Payline { symbol: Symbol::Hearts, weight: 18, three: 12, pair: 1 },
        Payline { symbol: Symbol::Spades, weight: 12, three: 25, pair: 2 },
        Payline { symbol: Symbol::Star, weight: 9, three: 60, pair: 2 },
        Payline { symbol: Symbol::Seven, weight: 6, three: 150, pair: 3 },
    ];
    assert(table@ =~= lines());
    table
}

pub const TOTAL_WEIGHT: u32 = 100;

/// The paytable as a sequence, most common symbol first.
pub open spec fn lines() -> Seq<Payline> {
    seq![
        Payline { symbol: Symbol::Clubs, weight: 30, three: 4, pair: 1 },
        Payline { symbol: Symbol::Diamonds, weight: 25, three: 6, pair: 1 },
        Payline { symbol: Symbol::Hearts, weight: 18, three: 12, pair: 1 },
        Payline { symbol: Symbol::Spades, weight: 12, three: 25, pair: 2 },
        Payline { symbol: Symbol::Star, weight: 9, three: 60, pair: 2 },
        Payline { symbol: Symbol::Seven, weight: 6, three: 150, pair: 3 },
    ]
}

/// The position of a symbol's line in the paytable.
pub open spec fn line_index(symbol: Symbol) -> int {
    match symbol {
        Symbol::Clubs => 0,
        Symbol::Diamonds => 1,
        Symbol::Hearts => 2,
        Symbol::Spades => 3,
        Symbol::Star => 4,
        Symbol::Seven => 5,
    }
}

pub open spec fn line_of(symbol: Symbol) -> Payline {
    reel_line(line_index(symbol))
}

/// What a spin paid, and why.
#[derive(Debug, Clone, Copy, PartialEq, Eq, Structural)]
pub enum Outcome {
    /// Nothing matched.
    Nothing,
    /// Exactly two reels matched.
    Pair { symbol: Symbol, multiplier: i64 },
    /// All three reels matched.
    Three { symbol: Symbol, multiplier: i64 },
}

pub open spec fn outcome_multiplier(outcome: Outcome) -> i64 {
    match outcome {
        Outcome::Nothing => 0,
        Outcome::Pair { multiplier, .. } => multiplier,
        Outcome::Three { multiplier, .. } => multiplier,
    }
}

impl Outcome {
    pub fn multiplier(&self) -> (m: i64)
        ensures
            m == outcome_multiplier(*self),
    {
        match self {
            Outcome::Nothing => 0,
            Outcome::Pair { multiplier, .. } => *multiplier,
            Outcome::Three { multiplier, .. } => *multiplier,
        }
    }
}

/// The symbol a roll in `0..100` lands on: the strip is the paylines laid end
/// to end, each as long as its weight.
pub open spec fn strip_symbol(roll: int) -> Symbol {
    if roll < 30 {
        Symbol::Clubs
    } else if roll < 55 {
        Symbol::Diamonds
    } else if roll < 73 {
        Symbol::Hearts
    } else if roll < 85 {
        Symbol::Spades
    } else if roll < 94 {
        Symbol::Star
    } else {
        Symbol::Seven
    }
}

/// Three of a kind beats a pair; a pair only counts when exactly two reels
/// match, and a pair split by a different symbol still counts.
pub open spec fn classify(a: Symbol, b: Symbol, c: Symbol) -> Outcome {
    if a == b && b == c {
        Outcome::Three { symbol: a, multiplier: line_of(a).three }
    } else if a == b || a == c {
        Outcome::Pair { symbol: a, multiplier: line_of(a).pair }
    } else if b == c {
        Outcome::Pair { symbol: b, multiplier: line_of(b).pair }
    } else {
        Outcome::Nothing
    }
}

/// Draws three independent symbols from the weighted strip.
pub fn spin(rng: &mut StdRng) -> (reels: [Symbol; REELS])
    ensures
        forall|i: int|
            0 <= i < 3 ==> exists|roll: int| 0 <= roll < 100 && #[trigger] reels@[i] == strip_symbol(roll),
{
    let a = draw(rng);
    let b = draw(rng);
    let c = draw(rng);
    let reels = [a, b, c];
    assert(reels@[0] == a && reels@[1] == b && reels@[2] == c);
    reels
}

fn draw(rng: &mut StdRng) -> (symbol: Symbol)
    ensures
        exists|roll: int| 0 <= roll < 100 && symbol == strip_symbol(roll),
{
    let roll = roll_below(rng, TOTAL_WEIGHT);
    let symbol = symbol_for_roll(roll);
    assert(symbol == strip_symbol(roll as int));
    symbol
}

/// Walks the strip: the first payline whose cumulative weight passes the roll.
pub fn symbol_for_roll(roll: u32) -> (symbol: Symbol)
    requires
        roll < TOTAL_WEIGHT,
    ensures
        symbol == strip_symbol(roll as int),
{
    let lines_table = paylines();
    let mut rest = roll;
    let mut i: usize = 0;
    let ghost mut start: int = 0;
    while i < lines_table.len()
        invariant
            i <= 6,
            lines_table@ == lines(),
            start == (if i == 0 {
                0int
            } else if i == 1 {
                30
            } else if i == 2 {
                55
            } else if i == 3 {
                73
            } else if i == 4 {
                85
            } else if i == 5 {
                94
            } else {
                100
            }),
            start <= roll,
            rest == roll - start,
        decreases 6 - i,
    {
        let line = lines_table[i];
        if rest < line.weight {
            return line.symbol;
        }
        rest -= line.weight;
        proof {
            start = start + line.weight;
        }
        i += 1;
    }
    lines_table[0].symbol
}

/// The paytable line for a symbol.
fn payline(symbol: Symbol) -> (line: Payline)
    ensures
        line == line_of(symbol),
{
    let lines_table = paylines();
    let mut i: usize = 0;
    while i < lines_table.len()
        invariant
            i <= 6,
            lines_table@ == lines(),
            line_index(symbol) >= i,
        decreases 6 - i,
    {
        if lines_table[i].symbol == symbol {
            return lines_table[i];
        }
        i += 1;
    }
    lines_table[0]
}

/// Classifies a set of reels. Three of a kind beats a pair; a pair only counts
/// when exactly two reels match.
pub fn evaluate(reels: [Symbol; REELS]) -> (outcome: Outcome)
    ensures
        outcome == classify(reels@[0], reels@[1], reels@[2]),
{
    let a = reels[0];
    let b = reels[1];
    let c = reels[2];

    if a == b && b == c {
        return Outcome::Three { symbol: a, multiplier: payline(a).three };
    }
    let paired = if a == b || a == c {
        Some(a)
    } else if b == c {
        Some(b)
    } else {
        None
    };

    match paired {
        Some(symbol) => Outcome::Pair { symbol, multiplier: payline(symbol).pair },
        None => Outcome::Nothing,
    }
}

/// What a stake of `bet` returns for this outcome. This is the gross return,
/// not the profit: a multiplier of 1 hands the stake back.
pub fn payout(outcome: Outcome, bet: i64) -> (paid: i64)
    ensures
        paid == saturate(bet * outcome_multiplier(outcome)),
{
    saturating_mul(bet, outcome.multiplier())
}

/// The paytable as the client should display it, highest paying first.
#[derive(Debug, Clone, Copy, PartialEq, Eq, Structural)]
pub struct PaytableEntry {
    pub symbol: Symbol,
    pub three_of_a_kind: i64,
    pub pair: i64,
}

/// The paytable, highest three-of-a-kind payout first. The paylines are
/// ordered by rising payout, so this is the table read from the bottom up.
pub fn paytable() -> (entries: Vec<PaytableEntry>)
    ensures
        entries@.len() == 6,
        forall|k: int|
            0 <= k < 6 ==> #[trigger] entries@[k] == (PaytableEntry {
                symbol: lines()[5 - k].symbol,
                three_of_a_kind: lines()[5 - k].three,
                pair: lines()[5 - k].pair,
            }),
        forall|j: int, k: int|
            0 <= j < k < 6 ==> #[trigger] entries@[j].three_of_a_kind
                > #[trigger] entries@[k].three_of_a_kind,
{
    let lines_table = paylines();
    let mut entries: Vec<PaytableEntry> = Vec::new();
    let mut i: usize = lines_table.len();
    while i > 0
        invariant
            i <= 6,
            lines_table@ == lines(),
            entries@.len() == 6 - i,
            forall|k: int|
                0 <= k < 6 - i ==> #[trigger] entries@[k] == (PaytableEntry {
                    symbol: lines()[5 - k].symbol,
                    three_of_a_kind: lines()[5 - k].three,
                    pair: lines()[5 - k].pair,
                }),
        decreases i,
    {
        i -= 1;
        let line = lines_table[i];
        entries.push(PaytableEntry { symbol: line.symbol, three_of_a_kind: line.three, pair: line.pair });
    }
    entries
}

/// The paytable line at position `i`, most common symbol first.
pub open spec fn reel_line(i: int) -> Payline {
    if i == 0 {
        Payline { symbol: Symbol::Clubs, weight: 30, three: 4, pair: 1 }
    } else if i == 1 {
        Payline { symbol: Symbol::Diamonds, weight: 25, three: 6, pair: 1 }
    } else if i == 2 {
        Payline { symbol: Symbol::Hearts, weight: 18, three: 12, pair: 1 }
    } else if i == 3 {
        Payline { symbol: Symbol::Spades, weight: 12, three: 25, pair: 2 }
    } else if i == 4 {
        Payline { symbol: Symbol::Star, weight: 9, three: 60, pair: 2 }
    } else {
        Payline { symbol: Symbol::Seven, weight: 6, three: 150, pair: 3 }
    }
}

/// Probability weight (out of 100 per reel) times payout multiple, for one of
/// the 216 reel combinations, numbered `36 * a + 6 * b + c`.
pub open spec fn combination_return(t: int) -> int {
    let a = reel_line(t / 36);
    let b = reel_line((t / 6) % 6);
    let c = reel_line(t % 6);
    a.weight * b.weight * c.weight * outcome_multiplier(classify(a.symbol, b.symbol, c.symbol))
}

/// The summed weighted return of the first `n` reel combinations.
pub open spec fn weighted_return(n: nat) -> int
    decreases n,
{
    if n == 0 {
        0
    } else {
        weighted_return((n - 1) as nat) + combination_return(n - 1)
    }
}

/// Exact return to player in parts per million of the stake: every one of the
/// 216 reel combinations, weighted by its probability (each reel weight is a
/// percentage, so three of them multiply out to millionths).
pub fn theoretical_return_ppm() -> (ppm: i64)
    ensures
        ppm == weighted_return(216),
{
    let lines_table = paylines();
    let mut total: i64 = 0;
    let mut a: usize = 0;
    while a < 6
        invariant
            a <= 6,
            lines_table@ == lines(),
            total == weighted_return((a * 36) as nat),
            total <= a * 36 * 4_050_000,
        decreases 6 - a,
    {
        let mut b: usize = 0;
        while b < 6
            invariant
                a < 6,
                b <= 6,
                lines_table@ == lines(),
                total == weighted_return((a * 36 + b * 6) as nat),
                total <= (a * 36 + b * 6) * 4_050_000,
            decreases 6 - b,
        {
            let mut c: usize = 0;
            while c < 6
                invariant
                    a < 6,
                    b < 6,
                    c <= 6,
                    lines_table@ == lines(),
                    total == weighted_return((a * 36 + b * 6 + c) as nat),
                    total <= (a * 36 + b * 6 + c) * 4_050_000,
                decreases 6 - c,
            {
                let la = lines_table[a];
                let lb = lines_table[b];
                let lc = lines_table[c];
                assert(la == reel_line(a as int) && lb == reel_line(b as int) && lc == reel_line(c as int));
                let outcome = evaluate([la.symbol, lb.symbol, lc.symbol]);
                let t: usize = a * 36 + b * 6 + c;
                assert(t / 36 == a && (t / 6) % 6 == b && t % 6 == c) by (nonlinear_arith)
                    requires
                        t == a * 36 + b * 6 + c,
                        a < 6,
                        b < 6,
                        c < 6,
                ;
                let m = outcome.multiplier();
                assert(0 <= m <= 150) by {
                    let o = classify(la.symbol, lb.symbol, lc.symbol);
                    assert(line_index(la.symbol) == a as int);
                }
                let wa = la.weight as i64;
                let wb = lb.weight as i64;
                let wc = lc.weight as i64;
                assert(0 <= wa * wb <= 900) by (nonlinear_arith)
                    requires
                        0 <= wa <= 30,
                        0 <= wb <= 30,
                ;
                assert(wa * wb * wc <= 27_000) by (nonlinear_arith)
                    requires
                        0 <= wa <= 30,
                        0 <= wb <= 30,
                        0 <= wc <= 30,
                ;
                assert(wa * wb * wc * m <= 4_050_000) by (nonlinear_arith)
                    requires
                        0 <= wa * wb * wc <= 27_000,
                        0 <= m <= 150,
                ;
                let term = wa * wb * wc * m;
                total = total + term;
                c += 1;
            }
            b += 1;
        }
        a += 1;
    }
    total
}

/// The running return after the 36 combinations whose first reel shows
/// Clubs (numbers 0 to 35), added up one combination at a time.
proof fn lemma_return_through_block_0()
    requires
        weighted_return(0) == 0,
    ensures
        weighted_return(36) == 279210,
{
    assert(combination_return(0) == 108000) by {
        assert(0int / 36 == 0 && (0int / 6) % 6 == 0 && 0int % 6 == 0);
        assert(reel_line(0).weight * reel_line(0).weight == 900);
        assert(reel_line(0).weight * reel_line(0).weight * reel_line(0).weight == 27000);
    }
    assert(weighted_return(1) == 108000);
    assert(combination_return(1) == 22500) by {
        assert(1int / 36 == 0 && (1int / 6) % 6 == 0 && 1int % 6 == 1);
        assert(reel_line(0).weight * reel_line(0).weight == 900);
        assert(reel_line(0).weight * reel_line(0).weight * reel_line(1).weight == 22500);
    }
    assert(weighted_return(2) == 130500);
    assert(combination_return(2) == 16200) by {
        assert(2int / 36 == 0 && (2int / 6) % 6 == 0 && 2int % 6 == 2);
        assert(reel_line(0).weight * reel_line(0).weight == 900);
        assert(reel_line(0).weight * reel_line(0).weight * reel_line(2).weight == 16200);
    }
    assert(weighted_return(3) == 146700);
    assert(combination_return(3) == 10800) by {
        assert(3int / 36 == 0 && (3int / 6) % 6 == 0 && 3int % 6 == 3);
        assert(reel_line(0).weight * reel_line(0).weight == 900);
        assert(reel_line(0).weight * reel_line(0).weight * reel_line(3).weight == 10800);
    }
    assert(weighted_return(4) == 157500);
    assert(combination_return(4) == 8100) by {
        assert(4int / 36 == 0 && (4int / 6) % 6 == 0 && 4int % 6 == 4);
        assert(reel_line(0).weight * reel_line(0).weight == 900);
        assert(reel_line(0).weight * reel_line(0).weight * reel_line(4).weight == 8100);
    }
    assert(weighted_return(5) == 165600);
    assert(combination_return(5) == 5400) by {
        assert(5int / 36 == 0 && (5int / 6) % 6 == 0 && 5int % 6 == 5);
        assert(reel_line(0).weight * reel_line(0).weight == 900);
        assert(reel_line(0).weight * reel_line(0).weight * reel_line(5).weight == 5400);
    }
    assert(weighted_return(6) == 171000);
    assert(combination_return(6) == 22500) by {
        assert(6int / 36 == 0 && (6int / 6) % 6 == 1 && 6int % 6 == 0);
        assert(reel_line(0).weight * reel_line(1).weight == 750);
        assert(reel_line(0).weight * reel_line(1).weight * reel_line(0).weight == 22500);
    }
    assert(weighted_return(7) == 193500);
    assert(combination_return(7) == 18750) by {
        assert(7int / 36 == 0 && (7int / 6) % 6 == 1 && 7int % 6 == 1);
        assert(reel_line(0).weight * reel_line(1).weight == 750);
        assert(reel_line(0).weight * reel_line(1).weight * reel_line(1).weight == 18750);
    }
    assert(weighted_return(8) == 212250);
    assert(combination_return(8) == 0) by {
        assert(8int / 36 == 0 && (8int / 6) % 6 == 1 && 8int % 6 == 2);
        assert(reel_line(0).weight * reel_line(1).weight == 750);
        assert(reel_line(0).weight * reel_line(1).weight * reel_line(2).weight == 13500);
    }
    assert(weighted_return(9) == 212250);
    assert(combination_return(9) == 0) by {
        assert(9int / 36 == 0 && (9int / 6) % 6 == 1 && 9int % 6 == 3);
        assert(reel_line(0).weight * reel_line(1).weight == 750);
        assert(reel_line(0).weight * reel_line(1).weight * reel_line(3).weight == 9000);
    }
    assert(weighted_return(10) == 212250);
    assert(combination_return(10) == 0) by {
        assert(10int / 36 == 0 && (10int / 6) % 6 == 1 && 10int % 6 == 4);
        assert(reel_line(0).weight * reel_line(1).weight == 750);
        assert(reel_line(0).weight * reel_line(1).weight * reel_line(4).weight == 6750);
    }
    assert(weighted_return(11) == 212250);
    assert(combination_return(11) == 0) by {
        assert(11int / 36 == 0 && (11int / 6) % 6 == 1 && 11int % 6 == 5);
        assert(reel_line(0).weight * reel_line(1).weight == 750);
        assert(reel_line(0).weight * reel_line(1).weight * reel_line(5).weight == 4500);
    }
    assert(weighted_return(12) == 212250);
    assert(combination_return(12) == 16200) by {
        assert(12int / 36 == 0 && (12int / 6) % 6 == 2 && 12int % 6 == 0);
        assert(reel_line(0).weight * reel_line(2).weight == 540);
        assert(reel_line(0).weight * reel_line(2).weight * reel_line(0).weight == 16200);
    }
    assert(weighted_return(13) == 228450);
    assert(combination_return(13) == 0) by {
        assert(13int / 36 == 0 && (13int / 6) % 6 == 2 && 13int % 6 == 1);
        assert(reel_line(0).weight * reel_line(2).weight == 540);
        assert(reel_line(0).weight * reel_line(2).weight * reel_line(1).weight == 13500);
    }
    assert(weighted_return(14) == 228450);
    assert(combination_return(14) == 9720) by {
        assert(14int / 36 == 0 && (14int / 6) % 6 == 2 && 14int % 6 == 2);
        assert(reel_line(0).weight * reel_line(2).weight == 540);
        assert(reel_line(0).weight * reel_line(2).weight * reel_line(2).weight == 9720);
    }
    assert(weighted_return(15) == 238170);
    assert(combination_return(15) == 0) by {
        assert(15int / 36 == 0 && (15int / 6) % 6 == 2 && 15int % 6 == 3);
        assert(reel_line(0).weight * reel_line(2).weight == 540);
        assert(reel_line(0).weight * reel_line(2).weight * reel_line(3).weight == 6480);
    }
    assert(weighted_return(16) == 238170);
    assert(combination_return(16) == 0) by {
        assert(16int / 36 == 0 && (16int / 6) % 6 == 2 && 16int % 6 == 4);
        assert(reel_line(0).weight * reel_line(2).weight == 540);
        assert(reel_line(0).weight * reel_line(2).weight * reel_line(4).weight == 4860);
    }
    assert(weighted_return(17) == 238170);
    assert(combination_return(17) == 0) by {
        assert(17int / 36 == 0 && (17int / 6) % 6 == 2 && 17int % 6 == 5);
        assert(reel_line(0).weight * reel_line(2).weight == 540);
        assert(reel_line(0).weight * reel_line(2).weight * reel_line(5).weight == 3240);
    }
    assert(weighted_return(18) == 238170);
    assert(combination_return(18) == 10800) by {
        assert(18int / 36 == 0 && (18int / 6) % 6 == 3 && 18int % 6 == 0);
        assert(reel_line(0).weight * reel_line(3).weight == 360);
        assert(reel_line(0).weight * reel_line(3).weight * reel_line(0).weight == 10800);
    }
    assert(weighted_return(19) == 248970);
    assert(combination_return(19) == 0) by {
        assert(19int / 36 == 0 && (19int / 6) % 6 == 3 && 19int % 6 == 1);
        assert(reel_line(0).weight * reel_line(3).weight == 360);
        assert(reel_line(0).weight * reel_line(3).weight * reel_line(1).weight == 9000);
    }
    assert(weighted_return(20) == 248970);
    assert(combination_return(20) == 0) by {
        assert(20int / 36 == 0 && (20int / 6) % 6 == 3 && 20int % 6 == 2);
        assert(reel_line(0).weight * reel_line(3).weight == 360);
        assert(reel_line(0).weight * reel_line(3).weight * reel_line(2).weight == 6480);
    }
    assert(weighted_return(21) == 248970);
    assert(combination_return(21) == 8640) by {
        assert(21int / 36 == 0 && (21int / 6) % 6 == 3 && 21int % 6 == 3);
        assert(reel_line(0).weight * reel_line(3).weight == 360);
        assert(reel_line(0).weight * reel_line(3).weight * reel_line(3).weight == 4320);
    }
    assert(weighted_return(22) == 257610);
    assert(combination_return(22) == 0) by {
        assert(22int / 36 == 0 && (22int / 6) % 6 == 3 && 22int % 6 == 4);
        assert(reel_line(0).weight * reel_line(3).weight == 360);
        assert(reel_line(0).weight * reel_line(3).weight * reel_line(4).weight == 3240);
    }
    assert(weighted_return(23) == 257610);
    assert(combination_return(23) == 0) by {
        assert(23int / 36 == 0 && (23int / 6) % 6 == 3 && 23int % 6 == 5);
        assert(reel_line(0).weight * reel_line(3).weight == 360);
        assert(reel_line(0).weight * reel_line(3).weight * reel_line(5).weight == 2160);
    }
    assert(weighted_return(24) == 257610);
    assert(combination_return(24) == 8100) by {
        assert(24int / 36 == 0 && (24int / 6) % 6 == 4 && 24int % 6 == 0);
        assert(reel_line(0).weight * reel_line(4).weight == 270);
        assert(reel_line(0).weight * reel_line(4).weight * reel_line(0).weight == 8100);
    }
    assert(weighted_return(25) == 265710);
    assert(combination_return(25) == 0) by {
        assert(25int / 36 == 0 && (25int / 6) % 6 == 4 && 25int % 6 == 1);
        assert(reel_line(0).weight * reel_line(4).weight == 270);
        assert(reel_line(0).weight * reel_line(4).weight * reel_line(1).weight == 6750);
    }
    assert(weighted_return(26) == 265710);
    assert(combination_return(26) == 0) by {
        assert(26int / 36 == 0 && (26int / 6) % 6 == 4 && 26int % 6 == 2);
        assert(reel_line(0).weight * reel_line(4).weight == 270);
        assert(reel_line(0).weight * reel_line(4).weight * reel_line(2).weight == 4860);
    }
    assert(weighted_return(27) == 265710);
    assert(combination_return(27) == 0) by {
        assert(27int / 36 == 0 && (27int / 6) % 6 == 4 && 27int % 6 == 3);
        assert(reel_line(0).weight * reel_line(4).weight == 270);
        assert(reel_line(0).weight * reel_line(4).weight * reel_line(3).weight == 3240);
    }
    assert(weighted_return(28) == 265710);
    assert(combination_return(28) == 4860) by {
        assert(28int / 36 == 0 && (28int / 6) % 6 == 4 && 28int % 6 == 4);
        assert(reel_line(0).weight * reel_line(4).weight == 270);
        assert(reel_line(0).weight * reel_line(4).weight * reel_line(4).weight == 2430);
    }
    assert(weighted_return(29) == 270570);
    assert(combination_return(29) == 0) by {
        assert(29int / 36 == 0 && (29int / 6) % 6 == 4 && 29int % 6 == 5);
        assert(reel_line(0).weight * reel_line(4).weight == 270);
        assert(reel_line(0).weight * reel_line(4).weight * reel_line(5).weight == 1620);
    }
    assert(weighted_return(30) == 270570);
    assert(combination_return(30) == 5400) by {
        assert(30int / 36 == 0 && (30int / 6) % 6 == 5 && 30int % 6 == 0);
        assert(reel_line(0).weight * reel_line(5).weight == 180);
        assert(reel_line(0).weight * reel_line(5).weight * reel_line(0).weight == 5400);
    }
    assert(weighted_return(31) == 275970);
    assert(combination_return(31) == 0) by {
        assert(31int / 36 == 0 && (31int / 6) % 6 == 5 && 31int % 6 == 1);
        assert(reel_line(0).weight * reel_line(5).weight == 180);
        assert(reel_line(0).weight * reel_line(5).weight * reel_line(1).weight == 4500);
    }
    assert(weighted_return(32) == 275970);
    assert(combination_return(32) == 0) by {
        assert(32int / 36 == 0 && (32int / 6) % 6 == 5 && 32int % 6 == 2);
        assert(reel_line(0).weight * reel_line(5).weight == 180);
        assert(reel_line(0).weight * reel_line(5).weight * reel_line(2).weight == 3240);
    }
    assert(weighted_return(33) == 275970);
    assert(combination_return(33) == 0) by {
        assert(33int / 36 == 0 && (33int / 6) % 6 == 5 && 33int % 6 == 3);
        assert(reel_line(0).weight * reel_line(5).weight == 180);
        assert(reel_line(0).weight * reel_line(5).weight * reel_line(3).weight == 2160);
    }
    assert(weighted_return(34) == 275970);
    assert(combination_return(34) == 0) by {
        assert(34int / 36 == 0 && (34int / 6) % 6 == 5 && 34int % 6 == 4);
        assert(reel_line(0).weight * reel_line(5).weight == 180);
        assert(reel_line(0).weight * reel_line(5).weight * reel_line(4).weight == 1620);
    }
    assert(weighted_return(35) == 275970);
    assert(combination_return(35) == 3240) by {
        assert(35int / 36 == 0 && (35int / 6) % 6 == 5 && 35int % 6 == 5);
        assert(reel_line(0).weight * reel_line(5).weight == 180);
        assert(reel_line(0).weight * reel_line(5).weight * reel_line(5).weight == 1080);
    }
    assert(weighted_return(36) == 279210);
}

/// The running return after the 36 combinations whose first reel shows
/// Diamonds (numbers 36 to 71), added up one combination at a time.
proof fn lemma_return_through_block_1()
    requires
        weighted_return(36) == 279210,
    ensures
        weighted_return(72) == 511260,
{
    assert(combination_return(36) == 22500) by {
        assert(36int / 36 == 1 && (36int / 6) % 6 == 0 && 36int % 6 == 0);
        assert(reel_line(1).weight * reel_line(0).weight == 750);
        assert(reel_line(1).weight * reel_line(0).weight * reel_line(0).weight == 22500);
    }
    assert(weighted_return(37) == 301710);
    assert(combination_return(37) == 18750) by {
        assert(37int / 36 == 1 && (37int / 6) % 6 == 0 && 37int % 6 == 1);
        assert(reel_line(1).weight * reel_line(0).weight == 750);
        assert(reel_line(1).weight * reel_line(0).weight * reel_line(1).weight == 18750);
    }
    assert(weighted_return(38) == 320460);
    assert(combination_return(38) == 0) by {
        assert(38int / 36 == 1 && (38int / 6) % 6 == 0 && 38int % 6 == 2);
        assert(reel_line(1).weight * reel_line(0).weight == 750);
        assert(reel_line(1).weight * reel_line(0).weight * reel_line(2).weight == 13500);
    }
    assert(weighted_return(39) == 320460);
    assert(combination_return(39) == 0) by {
        assert(39int / 36 == 1 && (39int / 6) % 6 == 0 && 39int % 6 == 3);
        assert(reel_line(1).weight * reel_line(0).weight == 750);
        assert(reel_line(1).weight * reel_line(0).weight * reel_line(3).weight == 9000);
    }
    assert(weighted_return(40) == 320460);
    assert(combination_return(40) == 0) by {
        assert(40int / 36 == 1 && (40int / 6) % 6 == 0 && 40int % 6 == 4);
        assert(reel_line(1).weight * reel_line(0).weight == 750);
        assert(reel_line(1).weight * reel_line(0).weight * reel_line(4).weight == 6750);
    }
    assert(weighted_return(41) == 320460);
    assert(combination_return(41) == 0) by {
        assert(41int / 36 == 1 && (41int / 6) % 6 == 0 && 41int % 6 == 5);
        assert(reel_line(1).weight * reel_line(0).weight == 750);
        assert(reel_line(1).weight * reel_line(0).weight * reel_line(5).weight == 4500);
    }
    assert(weighted_return(42) == 320460);
    assert(combination_return(42) == 18750) by {
        assert(42int / 36 == 1 && (42int / 6) % 6 == 1 && 42int % 6 == 0);
        assert(reel_line(1).weight * reel_line(1).weight == 625);
        assert(reel_line(1).weight * reel_line(1).weight * reel_line(0).weight == 18750);
    }
    assert(weighted_return(43) == 339210);
    assert(combination_return(43) == 93750) by {
        assert(43int / 36 == 1 && (43int / 6) % 6 == 1 && 43int % 6 == 1);
        assert(reel_line(1).weight * reel_line(1).weight == 625);
        assert(reel_line(1).weight * reel_line(1).weight * reel_line(1).weight == 15625);
    }
    assert(weighted_return(44) == 432960);
    assert(combination_return(44) == 11250) by {
        assert(44int / 36 == 1 && (44int / 6) % 6 == 1 && 44int % 6 == 2);
        assert(reel_line(1).weight * reel_line(1).weight == 625);
        assert(reel_line(1).weight * reel_line(1).weight * reel_line(2).weight == 11250);
    }
    assert(weighted_return(45) == 444210);
    assert(combination_return(45) == 7500) by {
        assert(45int / 36 == 1 && (45int / 6) % 6 == 1 && 45int % 6 == 3);
        assert(reel_line(1).weight * reel_line(1).weight == 625);
        assert(reel_line(1).weight * reel_line(1).weight * reel_line(3).weight == 7500);
    }
    assert(weighted_return(46) == 451710);
    assert(combination_return(46) == 5625) by {
        assert(46int / 36 == 1 && (46int / 6) % 6 == 1 && 46int % 6 == 4);
        assert(reel_line(1).weight * reel_line(1).weight == 625);
        assert(reel_line(1).weight * reel_line(1).weight * reel_line(4).weight == 5625);
    }
    assert(weighted_return(47) == 457335);
    assert(combination_return(47) == 3750) by {
        assert(47int / 36 == 1 && (47int / 6) % 6 == 1 && 47int % 6 == 5);
        assert(reel_line(1).weight * reel_line(1).weight == 625);
        assert(reel_line(1).weight * reel_line(1).weight * reel_line(5).weight == 3750);
    }
    assert(weighted_return(48) == 461085);
    assert(combination_return(48) == 0) by {
        assert(48int / 36 == 1 && (48int / 6) % 6 == 2 && 48int % 6 == 0);
        assert(reel_line(1).weight * reel_line(2).weight == 450);
        assert(reel_line(1).weight * reel_line(2).weight * reel_line(0).weight == 13500);
    }
    assert(weighted_return(49) == 461085);
    assert(combination_return(49) == 11250) by {
        assert(49int / 36 == 1 && (49int / 6) % 6 == 2 && 49int % 6 == 1);
        assert(reel_line(1).weight * reel_line(2).weight == 450);
        assert(reel_line(1).weight * reel_line(2).weight * reel_line(1).weight == 11250);
    }
    assert(weighted_return(50) == 472335);
    assert(combination_return(50) == 8100) by {
        assert(50int / 36 == 1 && (50int / 6) % 6 == 2 && 50int % 6 == 2);
        assert(reel_line(1).weight * reel_line(2).weight == 450);
        assert(reel_line(1).weight * reel_line(2).weight * reel_line(2).weight == 8100);
    }
    assert(weighted_return(51) == 480435);
    assert(combination_return(51) == 0) by {
        assert(51int / 36 == 1 && (51int / 6) % 6 == 2 && 51int % 6 == 3);
        assert(reel_line(1).weight * reel_line(2).weight == 450);
        assert(reel_line(1).weight * reel_line(2).weight * reel_line(3).weight == 5400);
    }
    assert(weighted_return(52) == 480435);
    assert(combination_return(52) == 0) by {
        assert(52int / 36 == 1 && (52int / 6) % 6 == 2 && 52int % 6 == 4);
        assert(reel_line(1).weight * reel_line(2).weight == 450);
        assert(reel_line(1).weight * reel_line(2).weight * reel_line(4).weight == 4050);
    }
    assert(weighted_return(53) == 480435);
    assert(combination_return(53) == 0) by {
        assert(53int / 36 == 1 && (53int / 6) % 6 == 2 && 53int % 6 == 5);
        assert(reel_line(1).weight * reel_line(2).weight == 450);
        assert(reel_line(1).weight * reel_line(2).weight * reel_line(5).weight == 2700);
    }
    assert(weighted_return(54) == 480435);
    assert(combination_return(54) == 0) by {
        assert(54int / 36 == 1 && (54int / 6) % 6 == 3 && 54int % 6 == 0);
        assert(reel_line(1).weight * reel_line(3).weight == 300);
        assert(reel_line(1).weight * reel_line(3).weight * reel_line(0).weight == 9000);
    }
    assert(weighted_return(55) == 480435);
    assert(combination_return(55) == 7500) by {
        assert(55int / 36 == 1 && (55int / 6) % 6 == 3 && 55int % 6 == 1);
        assert(reel_line(1).weight * reel_line(3).weight == 300);
        assert(reel_line(1).weight * reel_line(3).weight * reel_line(1).weight == 7500);
    }
    assert(weighted_return(56) == 487935);
    assert(combination_return(56) == 0) by {
        assert(56int / 36 == 1 && (56int / 6) % 6 == 3 && 56int % 6 == 2);
        assert(reel_line(1).weight * reel_line(3).weight == 300);
        assert(reel_line(1).weight * reel_line(3).weight * reel_line(2).weight == 5400);
    }
    assert(weighted_return(57) == 487935);
    assert(combination_return(57) == 7200) by {
        assert(57int / 36 == 1 && (57int / 6) % 6 == 3 && 57int % 6 == 3);
        assert(reel_line(1).weight * reel_line(3).weight == 300);
        assert(reel_line(1).weight * reel_line(3).weight * reel_line(3).weight == 3600);
    }
    assert(weighted_return(58) == 495135);
    assert(combination_return(58) == 0) by {
        assert(58int / 36 == 1 && (58int / 6) % 6 == 3 && 58int % 6 == 4);
        assert(reel_line(1).weight * reel_line(3).weight == 300);
        assert(reel_line(1).weight * reel_line(3).weight * reel_line(4).weight == 2700);
    }
    assert(weighted_return(59) == 495135);
    assert(combination_return(59) == 0) by {
        assert(59int / 36 == 1 && (59int / 6) % 6 == 3 && 59int % 6 == 5);
        assert(reel_line(1).weight * reel_line(3).weight == 300);
        assert(reel_line(1).weight * reel_line(3).weight * reel_line(5).weight == 1800);
    }
    assert(weighted_return(60) == 495135);
    assert(combination_return(60) == 0) by {
        assert(60int / 36 == 1 && (60int / 6) % 6 == 4 && 60int % 6 == 0);
        assert(reel_line(1).weight * reel_line(4).weight == 225);
        assert(reel_line(1).weight * reel_line(4).weight * reel_line(0).weight == 6750);
    }
    assert(weighted_return(61) == 495135);
    assert(combination_return(61) == 5625) by {
        assert(61int / 36 == 1 && (61int / 6) % 6 == 4 && 61int % 6 == 1);
        assert(reel_line(1).weight * reel_line(4).weight == 225);
        assert(reel_line(1).weight * reel_line(4).weight * reel_line(1).weight == 5625);
    }
    assert(weighted_return(62) == 500760);
    assert(combination_return(62) == 0) by {
        assert(62int / 36 == 1 && (62int / 6) % 6 == 4 && 62int % 6 == 2);
        assert(reel_line(1).weight * reel_line(4).weight == 225);
        assert(reel_line(1).weight * reel_line(4).weight * reel_line(2).weight == 4050);
    }
    assert(weighted_return(63) == 500760);
    assert(combination_return(63) == 0) by {
        assert(63int / 36 == 1 && (63int / 6) % 6 == 4 && 63int % 6 == 3);
        assert(reel_line(1).weight * reel_line(4).weight == 225);
        assert(reel_line(1).weight * reel_line(4).weight * reel_line(3).weight == 2700);
    }
    assert(weighted_return(64) == 500760);
    assert(combination_return(64) == 4050) by {
        assert(64int / 36 == 1 && (64int / 6) % 6 == 4 && 64int % 6 == 4);
        assert(reel_line(1).weight * reel_line(4).weight == 225);
        assert(reel_line(1).weight * reel_line(4).weight * reel_line(4).weight == 2025);
    }
    assert(weighted_return(65) == 504810);
    assert(combination_return(65) == 0) by {
        assert(65int / 36 == 1 && (65int / 6) % 6 == 4 && 65int % 6 == 5);
        assert(reel_line(1).weight * reel_line(4).weight == 225);
        assert(reel_line(1).weight * reel_line(4).weight * reel_line(5).weight == 1350);
    }
    assert(weighted_return(66) == 504810);
    assert(combination_return(66) == 0) by {
        assert(66int / 36 == 1 && (66int / 6) % 6 == 5 && 66int % 6 == 0);
        assert(reel_line(1).weight * reel_line(5).weight == 150);
        assert(reel_line(1).weight * reel_line(5).weight * reel_line(0).weight == 4500);
    }
    assert(weighted_return(67) == 504810);
    assert(combination_return(67) == 3750) by {
        assert(67int / 36 == 1 && (67int / 6) % 6 == 5 && 67int % 6 == 1);
        assert(reel_line(1).weight * reel_line(5).weight == 150);
        assert(reel_line(1).weight * reel_line(5).weight * reel_line(1).weight == 3750);
    }
    assert(weighted_return(68) == 508560);
    assert(combination_return(68) == 0) by {
        assert(68int / 36 == 1 && (68int / 6) % 6 == 5 && 68int % 6 == 2);
        assert(reel_line(1).weight * reel_line(5).weight == 150);
        assert(reel_line(1).weight * reel_line(5).weight * reel_line(2).weight == 2700);
    }
    assert(weighted_return(69) == 508560);
    assert(combination_return(69) == 0) by {
        assert(69int / 36 == 1 && (69int / 6) % 6 == 5 && 69int % 6 == 3);
        assert(reel_line(1).weight * reel_line(5).weight == 150);
        assert(reel_line(1).weight * reel_line(5).weight * reel_line(3).weight == 1800);
    }
    assert(weighted_return(70) == 508560);
    assert(combination_return(70) == 0) by {
        assert(70int / 36 == 1 && (70int / 6) % 6 == 5 && 70int % 6 == 4);
        assert(reel_line(1).weight * reel_line(5).weight == 150);
        assert(reel_line(1).weight * reel_line(5).weight * reel_line(4).weight == 1350);
    }
    assert(weighted_return(71) == 508560);
    assert(combination_return(71) == 2700) by {
        assert(71int / 36 == 1 && (71int / 6) % 6 == 5 && 71int % 6 == 5);
        assert(reel_line(1).weight * reel_line(5).weight == 150);
        assert(reel_line(1).weight * reel_line(5).weight * reel_line(5).weight == 900);
    }
    assert(weighted_return(72) == 511260);
}

/// The running return after the 36 combinations whose first reel shows
/// Hearts (numbers 72 to 107), added up one combination at a time.
proof fn lemma_return_through_block_2()
    requires
        weighted_return(72) == 511260,
    ensures
        weighted_return(108) == 671874,
{
    assert(combination_return(72) == 16200) by {
        assert(72int / 36 == 2 && (72int / 6) % 6 == 0 && 72int % 6 == 0);
        assert(reel_line(2).weight * reel_line(0).weight == 540);
        assert(reel_line(2).weight * reel_line(0).weight * reel_line(0).weight == 16200);
    }
    assert(weighted_return(73) == 527460);
    assert(combination_return(73) == 0) by {
        assert(73int / 36 == 2 && (73int / 6) % 6 == 0 && 73int % 6 == 1);
        assert(reel_line(2).weight * reel_line(0).weight == 540);
        assert(reel_line(2).weight * reel_line(0).weight * reel_line(1).weight == 13500);
    }
    assert(weighted_return(74) == 527460);
    assert(combination_return(74) == 9720) by {
        assert(74int / 36 == 2 && (74int / 6) % 6 == 0 && 74int % 6 == 2);
        assert(reel_line(2).weight * reel_line(0).weight == 540);
        assert(reel_line(2).weight * reel_line(0).weight * reel_line(2).weight == 9720);
    }
    assert(weighted_return(75) == 537180);
    assert(combination_return(75) == 0) by {
        assert(75int / 36 == 2 && (75int / 6) % 6 == 0 && 75int % 6 == 3);
        assert(reel_line(2).weight * reel_line(0).weight == 540);
        assert(reel_line(2).weight * reel_line(0).weight * reel_line(3).weight == 6480);
    }
    assert(weighted_return(76) == 537180);
    assert(combination_return(76) == 0) by {
        assert(76int / 36 == 2 && (76int / 6) % 6 == 0 && 76int % 6 == 4);
        assert(reel_line(2).weight * reel_line(0).weight == 540);
        assert(reel_line(2).weight * reel_line(0).weight * reel_line(4).weight == 4860);
    }
    assert(weighted_return(77) == 537180);
    assert(combination_return(77) == 0) by {
        assert(77int / 36 == 2 && (77int / 6) % 6 == 0 && 77int % 6 == 5);
        assert(reel_line(2).weight * reel_line(0).weight == 540);
        assert(reel_line(2).weight * reel_line(0).weight * reel_line(5).weight == 3240);
    }
    assert(weighted_return(78) == 537180);
    assert(combination_return(78) == 0) by {
        assert(78int / 36 == 2 && (78int / 6) % 6 == 1 && 78int % 6 == 0);
        assert(reel_line(2).weight * reel_line(1).weight == 450);
        assert(reel_line(2).weight * reel_line(1).weight * reel_line(0).weight == 13500);
    }
    assert(weighted_return(79) == 537180);
    assert(combination_return(79) == 11250) by {
        assert(79int / 36 == 2 && (79int / 6) % 6 == 1 && 79int % 6 == 1);
        assert(reel_line(2).weight * reel_line(1).weight == 450);
        assert(reel_line(2).weight * reel_line(1).weight * reel_line(1).weight == 11250);
    }
    assert(weighted_return(80) == 548430);
    assert(combination_return(80) == 8100) by {
        assert(80int / 36 == 2 && (80int / 6) % 6 == 1 && 80int % 6 == 2);
        assert(reel_line(2).weight * reel_line(1).weight == 450);
        assert(reel_line(2).weight * reel_line(1).weight * reel_line(2).weight == 8100);
    }
    assert(weighted_return(81) == 556530);
    assert(combination_return(81) == 0) by {
        assert(81int / 36 == 2 && (81int / 6) % 6 == 1 && 81int % 6 == 3);
        assert(reel_line(2).weight * reel_line(1).weight == 450);
        assert(reel_line(2).weight * reel_line(1).weight * reel_line(3).weight == 5400);
    }
    assert(weighted_return(82) == 556530);
    assert(combination_return(82) == 0) by {
        assert(82int / 36 == 2 && (82int / 6) % 6 == 1 && 82int % 6 == 4);
        assert(reel_line(2).weight * reel_line(1).weight == 450);
        assert(reel_line(2).weight * reel_line(1).weight * reel_line(4).weight == 4050);
    }
    assert(weighted_return(83) == 556530);
    assert(combination_return(83) == 0) by {
        assert(83int / 36 == 2 && (83int / 6) % 6 == 1 && 83int % 6 == 5);
        assert(reel_line(2).weight * reel_line(1).weight == 450);
        assert(reel_line(2).weight * reel_line(1).weight * reel_line(5).weight == 2700);
    }
    assert(weighted_return(84) == 556530);
    assert(combination_return(84) == 9720) by {
        assert(84int / 36 == 2 && (84int / 6) % 6 == 2 && 84int % 6 == 0);
        assert(reel_line(2).weight * reel_line(2).weight == 324);
        assert(reel_line(2).weight * reel_line(2).weight * reel_line(0).weight == 9720);
    }
    assert(weighted_return(85) == 566250);
    assert(combination_return(85) == 8100) by {
        assert(85int / 36 == 2 && (85int / 6) % 6 == 2 && 85int % 6 == 1);
        assert(reel_line(2).weight * reel_line(2).weight == 324);
        assert(reel_line(2).weight * reel_line(2).weight * reel_line(1).weight == 8100);
    }
    assert(weighted_return(86) == 574350);
    assert(combination_return(86) == 69984) by {
        assert(86int / 36 == 2 && (86int / 6) % 6 == 2 && 86int % 6 == 2);
        assert(reel_line(2).weight * reel_line(2).weight == 324);
        assert(reel_line(2).weight * reel_line(2).weight * reel_line(2).weight == 5832);
    }
    assert(weighted_return(87) == 644334);
    assert(combination_return(87) == 3888) by {
        assert(87int / 36 == 2 && (87int / 6) % 6 == 2 && 87int % 6 == 3);
        assert(reel_line(2).weight * reel_line(2).weight == 324);
        assert(reel_line(2).weight * reel_line(2).weight * reel_line(3).weight == 3888);
    }
    assert(weighted_return(88) == 648222);
    assert(combination_return(88) == 2916) by {
        assert(88int / 36 == 2 && (88int / 6) % 6 == 2 && 88int % 6 == 4);
        assert(reel_line(2).weight * reel_line(2).weight == 324);
        assert(reel_line(2).weight * reel_line(2).weight * reel_line(4).weight == 2916);
    }
    assert(weighted_return(89) == 651138);
    assert(combination_return(89) == 1944) by {
        assert(89int / 36 == 2 && (89int / 6) % 6 == 2 && 89int % 6 == 5);
        assert(reel_line(2).weight * reel_line(2).weight == 324);
        assert(reel_line(2).weight * reel_line(2).weight * reel_line(5).weight == 1944);
    }
    assert(weighted_return(90) == 653082);
    assert(combination_return(90) == 0) by {
        assert(90int / 36 == 2 && (90int / 6) % 6 == 3 && 90int % 6 == 0);
        assert(reel_line(2).weight * reel_line(3).weight == 216);
        assert(reel_line(2).weight * reel_line(3).weight * reel_line(0).weight == 6480);
    }
    assert(weighted_return(91) == 653082);
    assert(combination_return(91) == 0) by {
        assert(91int / 36 == 2 && (91int / 6) % 6 == 3 && 91int % 6 == 1);
        assert(reel_line(2).weight * reel_line(3).weight == 216);
        assert(reel_line(2).weight * reel_line(3).weight * reel_line(1).weight == 5400);
    }
    assert(weighted_return(92) == 653082);
    assert(combination_return(92) == 3888) by {
        assert(92int / 36 == 2 && (92int / 6) % 6 == 3 && 92int % 6 == 2);
        assert(reel_line(2).weight * reel_line(3).weight == 216);
        assert(reel_line(2).weight * reel_line(3).weight * reel_line(2).weight == 3888);
    }
    assert(weighted_return(93) == 656970);
    assert(combination_return(93) == 5184) by {
        assert(93int / 36 == 2 && (93int / 6) % 6 == 3 && 93int % 6 == 3);
        assert(reel_line(2).weight * reel_line(3).weight == 216);
        assert(reel_line(2).weight * reel_line(3).weight * reel_line(3).weight == 2592);
    }
    assert(weighted_return(94) == 662154);
    assert(combination_return(94) == 0) by {
        assert(94int / 36 == 2 && (94int / 6) % 6 == 3 && 94int % 6 == 4);
        assert(reel_line(2).weight * reel_line(3).weight == 216);
        assert(reel_line(2).weight * reel_line(3).weight * reel_line(4).weight == 1944);
    }
    assert(weighted_return(95) == 662154);
    assert(combination_return(95) == 0) by {
        assert(95int / 36 == 2 && (95int / 6) % 6 == 3 && 95int % 6 == 5);
        assert(reel_line(2).weight * reel_line(3).weight == 216);
        assert(reel_line(2).weight * reel_line(3).weight * reel_line(5).weight == 1296);
    }
    assert(weighted_return(96) == 662154);
    assert(combination_return(96) == 0) by {
        assert(96int / 36 == 2 && (96int / 6) % 6 == 4 && 96int % 6 == 0);
        assert(reel_line(2).weight * reel_line(4).weight == 162);
        assert(reel_line(2).weight * reel_line(4).weight * reel_line(0).weight == 4860);
    }
    assert(weighted_return(97) == 662154);
    assert(combination_return(97) == 0) by {
        assert(97int / 36 == 2 && (97int / 6) % 6 == 4 && 97int % 6 == 1);
        assert(reel_line(2).weight * reel_line(4).weight == 162);
        assert(reel_line(2).weight * reel_line(4).weight * reel_line(1).weight == 4050);
    }
    assert(weighted_return(98) == 662154);
    assert(combination_return(98) == 2916) by {
        assert(98int / 36 == 2 && (98int / 6) % 6 == 4 && 98int % 6 == 2);
        assert(reel_line(2).weight * reel_line(4).weight == 162);
        assert(reel_line(2).weight * reel_line(4).weight * reel_line(2).weight == 2916);
    }
    assert(weighted_return(99) == 665070);
    assert(combination_return(99) == 0) by {
        assert(99int / 36 == 2 && (99int / 6) % 6 == 4 && 99int % 6 == 3);
        assert(reel_line(2).weight * reel_line(4).weight == 162);
        assert(reel_line(2).weight * reel_line(4).weight * reel_line(3).weight == 1944);
    }
    assert(weighted_return(100) == 665070);
    assert(combination_return(100) == 2916) by {
        assert(100int / 36 == 2 && (100int / 6) % 6 == 4 && 100int % 6 == 4);
        assert(reel_line(2).weight * reel_line(4).weight == 162);
        assert(reel_line(2).weight * reel_line(4).weight * reel_line(4).weight == 1458);
    }
    assert(weighted_return(101) == 667986);
    assert(combination_return(101) == 0) by {
        assert(101int / 36 == 2 && (101int / 6) % 6 == 4 && 101int % 6 == 5);
        assert(reel_line(2).weight * reel_line(4).weight == 162);
        assert(reel_line(2).weight * reel_line(4).weight * reel_line(5).weight == 972);
    }
    assert(weighted_return(102) == 667986);
    assert(combination_return(102) == 0) by {
        assert(102int / 36 == 2 && (102int / 6) % 6 == 5 && 102int % 6 == 0);
        assert(reel_line(2).weight * reel_line(5).weight == 108);
        assert(reel_line(2).weight * reel_line(5).weight * reel_line(0).weight == 3240);
    }
    assert(weighted_return(103) == 667986);
    assert(combination_return(103) == 0) by {
        assert(103int / 36 == 2 && (103int / 6) % 6 == 5 && 103int % 6 == 1);
        assert(reel_line(2).weight * reel_line(5).weight == 108);
        assert(reel_line(2).weight * reel_line(5).weight * reel_line(1).weight == 2700);
    }
    assert(weighted_return(104) == 667986);
    assert(combination_return(104) == 1944) by {
        assert(104int / 36 == 2 && (104int / 6) % 6 == 5 && 104int % 6 == 2);
        assert(reel_line(2).weight * reel_line(5).weight == 108);
        assert(reel_line(2).weight * reel_line(5).weight * reel_line(2).weight == 1944);
    }
    assert(weighted_return(105) == 669930);
    assert(combination_return(105) == 0) by {
        assert(105int / 36 == 2 && (105int / 6) % 6 == 5 && 105int % 6 == 3);
        assert(reel_line(2).weight * reel_line(5).weight == 108);
        assert(reel_line(2).weight * reel_line(5).weight * reel_line(3).weight == 1296);
    }
    assert(weighted_return(106) == 669930);
    assert(combination_return(106) == 0) by {
        assert(106int / 36 == 2 && (106int / 6) % 6 == 5 && 106int % 6 == 4);
        assert(reel_line(2).weight * reel_line(5).weight == 108);
        assert(reel_line(2).weight * reel_line(5).weight * reel_line(4).weight == 972);
    }
    assert(weighted_return(107) == 669930);
    assert(combination_return(107) == 1944) by {
        assert(107int / 36 == 2 && (107int / 6) % 6 == 5 && 107int % 6 == 5);
        assert(reel_line(2).weight * reel_line(5).weight == 108);
        assert(reel_line(2).weight * reel_line(5).weight * reel_line(5).weight == 648);
    }
    assert(weighted_return(108) == 671874);
}

/// The running return after the 36 combinations whose first reel shows
/// Spades (numbers 108 to 143), added up one combination at a time.
proof fn lemma_return_through_block_3()
    requires
        weighted_return(108) == 671874,
    ensures
        weighted_return(144) == 791190,
{
    assert(combination_return(108) == 10800) by {
        assert(108int / 36 == 3 && (108int / 6) % 6 == 0 && 108int % 6 == 0);
        assert(reel_line(3).weight * reel_line(0).weight == 360);
        assert(reel_line(3).weight * reel_line(0).weight * reel_line(0).weight == 10800);
    }
    assert(weighted_return(109) == 682674);
    assert(combination_return(109) == 0) by {
        assert(109int / 36 == 3 && (109int / 6) % 6 == 0 && 109int % 6 == 1);
        assert(reel_line(3).weight * reel_line(0).weight == 360);
        assert(reel_line(3).weight * reel_line(0).weight * reel_line(1).weight == 9000);
    }
    assert(weighted_return(110) == 682674);
    assert(combination_return(110) == 0) by {
        assert(110int / 36 == 3 && (110int / 6) % 6 == 0 && 110int % 6 == 2);
        assert(reel_line(3).weight * reel_line(0).weight == 360);
        assert(reel_line(3).weight * reel_line(0).weight * reel_line(2).weight == 6480);
    }
    assert(weighted_return(111) == 682674);
    assert(combination_return(111) == 8640) by {
        assert(111int / 36 == 3 && (111int / 6) % 6 == 0 && 111int % 6 == 3);
        assert(reel_line(3).weight * reel_line(0).weight == 360);
        assert(reel_line(3).weight * reel_line(0).weight * reel_line(3).weight == 4320);
    }
    assert(weighted_return(112) == 691314);
    assert(combination_return(112) == 0) by {
        assert(112int / 36 == 3 && (112int / 6) % 6 == 0 && 112int % 6 == 4);
        assert(reel_line(3).weight * reel_line(0).weight == 360);
        assert(reel_line(3).weight * reel_line(0).weight * reel_line(4).weight == 3240);
    }
    assert(weighted_return(113) == 691314);
    assert(combination_return(113) == 0) by {
        assert(113int / 36 == 3 && (113int / 6) % 6 == 0 && 113int % 6 == 5);
        assert(reel_line(3).weight * reel_line(0).weight == 360);
        assert(reel_line(3).weight * reel_line(0).weight * reel_line(5).weight == 2160);
    }
    assert(weighted_return(114) == 691314);
    assert(combination_return(114) == 0) by {
        assert(114int / 36 == 3 && (114int / 6) % 6 == 1 && 114int % 6 == 0);
        assert(reel_line(3).weight * reel_line(1).weight == 300);
        assert(reel_line(3).weight * reel_line(1).weight * reel_line(0).weight == 9000);
    }
    assert(weighted_return(115) == 691314);
    assert(combination_return(115) == 7500) by {
        assert(115int / 36 == 3 && (115int / 6) % 6 == 1 && 115int % 6 == 1);
        assert(reel_line(3).weight * reel_line(1).weight == 300);
        assert(reel_line(3).weight * reel_line(1).weight * reel_line(1).weight == 7500);
    }
    assert(weighted_return(116) == 698814);
    assert(combination_return(116) == 0) by {
        assert(116int / 36 == 3 && (116int / 6) % 6 == 1 && 116int % 6 == 2);
        assert(reel_line(3).weight * reel_line(1).weight == 300);
        assert(reel_line(3).weight * reel_line(1).weight * reel_line(2).weight == 5400);
    }
    assert(weighted_return(117) == 698814);
    assert(combination_return(117) == 7200) by {
        assert(117int / 36 == 3 && (117int / 6) % 6 == 1 && 117int % 6 == 3);
        assert(reel_line(3).weight * reel_line(1).weight == 300);
        assert(reel_line(3).weight * reel_line(1).weight * reel_line(3).weight == 3600);
    }
    assert(weighted_return(118) == 706014);
    assert(combination_return(118) == 0) by {
        assert(118int / 36 == 3 && (118int / 6) % 6 == 1 && 118int % 6 == 4);
        assert(reel_line(3).weight * reel_line(1).weight == 300);
        assert(reel_line(3).weight * reel_line(1).weight * reel_line(4).weight == 2700);
    }
    assert(weighted_return(119) == 706014);
    assert(combination_return(119) == 0) by {
        assert(119int / 36 == 3 && (119int / 6) % 6 == 1 && 119int % 6 == 5);
        assert(reel_line(3).weight * reel_line(1).weight == 300);
        assert(reel_line(3).weight * reel_line(1).weight * reel_line(5).weight == 1800);
    }
    assert(weighted_return(120) == 706014);
    assert(combination_return(120) == 0) by {
        assert(120int / 36 == 3 && (120int / 6) % 6 == 2 && 120int % 6 == 0);
        assert(reel_line(3).weight * reel_line(2).weight == 216);
        assert(reel_line(3).weight * reel_line(2).weight * reel_line(0).weight == 6480);
    }
    assert(weighted_return(121) == 706014);
    assert(combination_return(121) == 0) by {
        assert(121int / 36 == 3 && (121int / 6) % 6 == 2 && 121int % 6 == 1);
        assert(reel_line(3).weight * reel_line(2).weight == 216);
        assert(reel_line(3).weight * reel_line(2).weight * reel_line(1).weight == 5400);
    }
    assert(weighted_return(122) == 706014);
    assert(combination_return(122) == 3888) by {
        assert(122int / 36 == 3 && (122int / 6) % 6 == 2 && 122int % 6 == 2);
        assert(reel_line(3).weight * reel_line(2).weight == 216);
        assert(reel_line(3).weight * reel_line(2).weight * reel_line(2).weight == 3888);
    }
    assert(weighted_return(123) == 709902);
    assert(combination_return(123) == 5184) by {
        assert(123int / 36 == 3 && (123int / 6) % 6 == 2 && 123int % 6 == 3);
        assert(reel_line(3).weight * reel_line(2).weight == 216);
        assert(reel_line(3).weight * reel_line(2).weight * reel_line(3).weight == 2592);
    }
    assert(weighted_return(124) == 715086);
    assert(combination_return(124) == 0) by {
        assert(124int / 36 == 3 && (124int / 6) % 6 == 2 && 124int % 6 == 4);
        assert(reel_line(3).weight * reel_line(2).weight == 216);
        assert(reel_line(3).weight * reel_line(2).weight * reel_line(4).weight == 1944);
    }
    assert(weighted_return(125) == 715086);
    assert(combination_return(125) == 0) by {
        assert(125int / 36 == 3 && (125int / 6) % 6 == 2 && 125int % 6 == 5);
        assert(reel_line(3).weight * reel_line(2).weight == 216);
        assert(reel_line(3).weight * reel_line(2).weight * reel_line(5).weight == 1296);
    }
    assert(weighted_return(126) == 715086);
    assert(combination_return(126) == 8640) by {
        assert(126int / 36 == 3 && (126int / 6) % 6 == 3 && 126int % 6 == 0);
        assert(reel_line(3).weight * reel_line(3).weight == 144);
        assert(reel_line(3).weight * reel_line(3).weight * reel_line(0).weight == 4320);
    }
    assert(weighted_return(127) == 723726);
    assert(combination_return(127) == 7200) by {
        assert(127int / 36 == 3 && (127int / 6) % 6 == 3 && 127int % 6 == 1);
        assert(reel_line(3).weight * reel_line(3).weight == 144);
        assert(reel_line(3).weight * reel_line(3).weight * reel_line(1).weight == 3600);
    }
    assert(weighted_return(128) == 730926);
    assert(combination_return(128) == 5184) by {
        assert(128int / 36 == 3 && (128int / 6) % 6 == 3 && 128int % 6 == 2);
        assert(reel_line(3).weight * reel_line(3).weight == 144);
        assert(reel_line(3).weight * reel_line(3).weight * reel_line(2).weight == 2592);
    }
    assert(weighted_return(129) == 736110);
    assert(combination_return(129) == 43200) by {
        assert(129int / 36 == 3 && (129int / 6) % 6 == 3 && 129int % 6 == 3);
        assert(reel_line(3).weight * reel_line(3).weight == 144);
        assert(reel_line(3).weight * reel_line(3).weight * reel_line(3).weight == 1728);
    }
    assert(weighted_return(130) == 779310);
    assert(combination_return(130) == 2592) by {
        assert(130int / 36 == 3 && (130int / 6) % 6 == 3 && 130int % 6 == 4);
        assert(reel_line(3).weight * reel_line(3).weight == 144);
        assert(reel_line(3).weight * reel_line(3).weight * reel_line(4).weight == 1296);
    }
    assert(weighted_return(131) == 781902);
    assert(combination_return(131) == 1728) by {
        assert(131int / 36 == 3 && (131int / 6) % 6 == 3 && 131int % 6 == 5);
        assert(reel_line(3).weight * reel_line(3).weight == 144);
        assert(reel_line(3).weight * reel_line(3).weight * reel_line(5).weight == 864);
    }
    assert(weighted_return(132) == 783630);
    assert(combination_return(132) == 0) by {
        assert(132int / 36 == 3 && (132int / 6) % 6 == 4 && 132int % 6 == 0);
        assert(reel_line(3).weight * reel_line(4).weight == 108);
        assert(reel_line(3).weight * reel_line(4).weight * reel_line(0).weight == 3240);
    }
    assert(weighted_return(133) == 783630);
    assert(combination_return(133) == 0) by {
        assert(133int / 36 == 3 && (133int / 6) % 6 == 4 && 133int % 6 == 1);
        assert(reel_line(3).weight * reel_line(4).weight == 108);
        assert(reel_line(3).weight * reel_line(4).weight * reel_line(1).weight == 2700);
    }
    assert(weighted_return(134) == 783630);
    assert(combination_return(134) == 0) by {
        assert(134int / 36 == 3 && (134int / 6) % 6 == 4 && 134int % 6 == 2);
        assert(reel_line(3).weight * reel_line(4).weight == 108);
        assert(reel_line(3).weight * reel_line(4).weight * reel_line(2).weight == 1944);
    }
    assert(weighted_return(135) == 783630);
    assert(combination_return(135) == 2592) by {
        assert(135int / 36 == 3 && (135int / 6) % 6 == 4 && 135int % 6 == 3);
        assert(reel_line(3).weight * reel_line(4).weight == 108);
        assert(reel_line(3).weight * reel_line(4).weight * reel_line(3).weight == 1296);
    }
    assert(weighted_return(136) == 786222);
    assert(combination_return(136) == 1944) by {
        assert(136int / 36 == 3 && (136int / 6) % 6 == 4 && 136int % 6 == 4);
        assert(reel_line(3).weight * reel_line(4).weight == 108);
        assert(reel_line(3).weight * reel_line(4).weight * reel_line(4).weight == 972);
    }
    assert(weighted_return(137) == 788166);
    assert(combination_return(137) == 0) by {
        assert(137int / 36 == 3 && (137int / 6) % 6 == 4 && 137int % 6 == 5);
        assert(reel_line(3).weight * reel_line(4).weight == 108);
        assert(reel_line(3).weight * reel_line(4).weight * reel_line(5).weight == 648);
    }
    assert(weighted_return(138) == 788166);
    assert(combination_return(138) == 0) by {
        assert(138int / 36 == 3 && (138int / 6) % 6 == 5 && 138int % 6 == 0);
        assert(reel_line(3).weight * reel_line(5).weight == 72);
        assert(reel_line(3).weight * reel_line(5).weight * reel_line(0).weight == 2160);
    }
    assert(weighted_return(139) == 788166);
    assert(combination_return(139) == 0) by {
        assert(139int / 36 == 3 && (139int / 6) % 6 == 5 && 139int % 6 == 1);
        assert(reel_line(3).weight * reel_line(5).weight == 72);
        assert(reel_line(3).weight * reel_line(5).weight * reel_line(1).weight == 1800);
    }
    assert(weighted_return(140) == 788166);
    assert(combination_return(140) == 0) by {
        assert(140int / 36 == 3 && (140int / 6) % 6 == 5 && 140int % 6 == 2);
        assert(reel_line(3).weight * reel_line(5).weight == 72);
        assert(reel_line(3).weight * reel_line(5).weight * reel_line(2).weight == 1296);
    }
    assert(weighted_return(141) == 788166);
    assert(combination_return(141) == 1728) by {
        assert(141int / 36 == 3 && (141int / 6) % 6 == 5 && 141int % 6 == 3);
        assert(reel_line(3).weight * reel_line(5).weight == 72);
        assert(reel_line(3).weight * reel_line(5).weight * reel_line(3).weight == 864);
    }
    assert(weighted_return(142) == 789894);
    assert(combination_return(142) == 0) by {
        assert(142int / 36 == 3 && (142int / 6) % 6 == 5 && 142int % 6 == 4);
        assert(reel_line(3).weight * reel_line(5).weight == 72);
        assert(reel_line(3).weight * reel_line(5).weight * reel_line(4).weight == 648);
    }
    assert(weighted_return(143) == 789894);
    assert(combination_return(143) == 1296) by {
        assert(143int / 36 == 3 && (143int / 6) % 6 == 5 && 143int % 6 == 5);
        assert(reel_line(3).weight * reel_line(5).weight == 72);
        assert(reel_line(3).weight * reel_line(5).weight * reel_line(5).weight == 432);
    }
    assert(weighted_return(144) == 791190);
}

/// The running return after the 36 combinations whose first reel shows
/// Star (numbers 144 to 179), added up one combination at a time.
proof fn lemma_return_through_block_4()
    requires
        weighted_return(144) == 791190,
    ensures
        weighted_return(180) == 884619,
{
    assert(combination_return(144) == 8100) by {
        assert(144int / 36 == 4 && (144int / 6) % 6 == 0 && 144int % 6 == 0);
        assert(reel_line(4).weight * reel_line(0).weight == 270);
        assert(reel_line(4).weight * reel_line(0).weight * reel_line(0).weight == 8100);
    }
    assert(weighted_return(145) == 799290);
    assert(combination_return(145) == 0) by {
        assert(145int / 36 == 4 && (145int / 6) % 6 == 0 && 145int % 6 == 1);
        assert(reel_line(4).weight * reel_line(0).weight == 270);
        assert(reel_line(4).weight * reel_line(0).weight * reel_line(1).weight == 6750);
    }
    assert(weighted_return(146) == 799290);
    assert(combination_return(146) == 0) by {
        assert(146int / 36 == 4 && (146int / 6) % 6 == 0 && 146int % 6 == 2);
        assert(reel_line(4).weight * reel_line(0).weight == 270);
        assert(reel_line(4).weight * reel_line(0).weight * reel_line(2).weight == 4860);
    }
    assert(weighted_return(147) == 799290);
    assert(combination_return(147) == 0) by {
        assert(147int / 36 == 4 && (147int / 6) % 6 == 0 && 147int % 6 == 3);
        assert(reel_line(4).weight * reel_line(0).weight == 270);
        assert(reel_line(4).weight * reel_line(0).weight * reel_line(3).weight == 3240);
    }
    assert(weighted_return(148) == 799290);
    assert(combination_return(148) == 4860) by {
        assert(148int / 36 == 4 && (148int / 6) % 6 == 0 && 148int % 6 == 4);
        assert(reel_line(4).weight * reel_line(0).weight == 270);
        assert(reel_line(4).weight * reel_line(0).weight * reel_line(4).weight == 2430);
    }
    assert(weighted_return(149) == 804150);
    assert(combination_return(149) == 0) by {
        assert(149int / 36 == 4 && (149int / 6) % 6 == 0 && 149int % 6 == 5);
        assert(reel_line(4).weight * reel_line(0).weight == 270);
        assert(reel_line(4).weight * reel_line(0).weight * reel_line(5).weight == 1620);
    }
    assert(weighted_return(150) == 804150);
    assert(combination_return(150) == 0) by {
        assert(150int / 36 == 4 && (150int / 6) % 6 == 1 && 150int % 6 == 0);
        assert(reel_line(4).weight * reel_line(1).weight == 225);
        assert(reel_line(4).weight * reel_line(1).weight * reel_line(0).weight == 6750);
    }
    assert(weighted_return(151) == 804150);
    assert(combination_return(151) == 5625) by {
        assert(151int / 36 == 4 && (151int / 6) % 6 == 1 && 151int % 6 == 1);
        assert(reel_line(4).weight * reel_line(1).weight == 225);
        assert(reel_line(4).weight * reel_line(1).weight * reel_line(1).weight == 5625);
    }
    assert(weighted_return(152) == 809775);
    assert(combination_return(152) == 0) by {
        assert(152int / 36 == 4 && (152int / 6) % 6 == 1 && 152int % 6 == 2);
        assert(reel_line(4).weight * reel_line(1).weight == 225);
        assert(reel_line(4).weight * reel_line(1).weight * reel_line(2).weight == 4050);
    }
    assert(weighted_return(153) == 809775);
    assert(combination_return(153) == 0) by {
        assert(153int / 36 == 4 && (153int / 6) % 6 == 1 && 153int % 6 == 3);
        assert(reel_line(4).weight * reel_line(1).weight == 225);
        assert(reel_line(4).weight * reel_line(1).weight * reel_line(3).weight == 2700);
    }
    assert(weighted_return(154) == 809775);
    assert(combination_return(154) == 4050) by {
        assert(154int / 36 == 4 && (154int / 6) % 6 == 1 && 154int % 6 == 4);
        assert(reel_line(4).weight * reel_line(1).weight == 225);
        assert(reel_line(4).weight * reel_line(1).weight * reel_line(4).weight == 2025);
    }
    assert(weighted_return(155) == 813825);
    assert(combination_return(155) == 0) by {
        assert(155int / 36 == 4 && (155int / 6) % 6 == 1 && 155int % 6 == 5);
        assert(reel_line(4).weight * reel_line(1).weight == 225);
        assert(reel_line(4).weight * reel_line(1).weight * reel_line(5).weight == 1350);
    }
    assert(weighted_return(156) == 813825);
    assert(combination_return(156) == 0) by {
        assert(156int / 36 == 4 && (156int / 6) % 6 == 2 && 156int % 6 == 0);
        assert(reel_line(4).weight * reel_line(2).weight == 162);
        assert(reel_line(4).weight * reel_line(2).weight * reel_line(0).weight == 4860);
    }
    assert(weighted_return(157) == 813825);
    assert(combination_return(157) == 0) by {
        assert(157int / 36 == 4 && (157int / 6) % 6 == 2 && 157int % 6 == 1);
        assert(reel_line(4).weight * reel_line(2).weight == 162);
        assert(reel_line(4).weight * reel_line(2).weight * reel_line(1).weight == 4050);
    }
    assert(weighted_return(158) == 813825);
    assert(combination_return(158) == 2916) by {
        assert(158int / 36 == 4 && (158int / 6) % 6 == 2 && 158int % 6 == 2);
        assert(reel_line(4).weight * reel_line(2).weight == 162);
        assert(reel_line(4).weight * reel_line(2).weight * reel_line(2).weight == 2916);
    }
    assert(weighted_return(159) == 816741);
    assert(combination_return(159) == 0) by {
        assert(159int / 36 == 4 && (159int / 6) % 6 == 2 && 159int % 6 == 3);
        assert(reel_line(4).weight * reel_line(2).weight == 162);
        assert(reel_line(4).weight * reel_line(2).weight * reel_line(3).weight == 1944);
    }
    assert(weighted_return(160) == 816741);
    assert(combination_return(160) == 2916) by {
        assert(160int / 36 == 4 && (160int / 6) % 6 == 2 && 160int % 6 == 4);
        assert(reel_line(4).weight * reel_line(2).weight == 162);
        assert(reel_line(4).weight * reel_line(2).weight * reel_line(4).weight == 1458);
    }
    assert(weighted_return(161) == 819657);
    assert(combination_return(161) == 0) by {
        assert(161int / 36 == 4 && (161int / 6) % 6 == 2 && 161int % 6 == 5);
        assert(reel_line(4).weight * reel_line(2).weight == 162);
        assert(reel_line(4).weight * reel_line(2).weight * reel_line(5).weight == 972);
    }
    assert(weighted_return(162) == 819657);
    assert(combination_return(162) == 0) by {
        assert(162int / 36 == 4 && (162int / 6) % 6 == 3 && 162int % 6 == 0);
        assert(reel_line(4).weight * reel_line(3).weight == 108);
        assert(reel_line(4).weight * reel_line(3).weight * reel_line(0).weight == 3240);
    }
    assert(weighted_return(163) == 819657);
    assert(combination_return(163) == 0) by {
        assert(163int / 36 == 4 && (163int / 6) % 6 == 3 && 163int % 6 == 1);
        assert(reel_line(4).weight * reel_line(3).weight == 108);
        assert(reel_line(4).weight * reel_line(3).weight * reel_line(1).weight == 2700);
    }
    assert(weighted_return(164) == 819657);
    assert(combination_return(164) == 0) by {
        assert(164int / 36 == 4 && (164int / 6) % 6 == 3 && 164int % 6 == 2);
        assert(reel_line(4).weight * reel_line(3).weight == 108);
        assert(reel_line(4).weight * reel_line(3).weight * reel_line(2).weight == 1944);
    }
    assert(weighted_return(165) == 819657);
    assert(combination_return(165) == 2592) by {
        assert(165int / 36 == 4 && (165int / 6) % 6 == 3 && 165int % 6 == 3);
        assert(reel_line(4).weight * reel_line(3).weight == 108);
        assert(reel_line(4).weight * reel_line(3).weight * reel_line(3).weight == 1296);
    }
    assert(weighted_return(166) == 822249);
    assert(combination_return(166) == 1944) by {
        assert(166int / 36 == 4 && (166int / 6) % 6 == 3 && 166int % 6 == 4);
        assert(reel_line(4).weight * reel_line(3).weight == 108);
        assert(reel_line(4).weight * reel_line(3).weight * reel_line(4).weight == 972);
    }
    assert(weighted_return(167) == 824193);
    assert(combination_return(167) == 0) by {
        assert(167int / 36 == 4 && (167int / 6) % 6 == 3 && 167int % 6 == 5);
        assert(reel_line(4).weight * reel_line(3).weight == 108);
        assert(reel_line(4).weight * reel_line(3).weight * reel_line(5).weight == 648);
    }
    assert(weighted_return(168) == 824193);
    assert(combination_return(168) == 4860) by {
        assert(168int / 36 == 4 && (168int / 6) % 6 == 4 && 168int % 6 == 0);
        assert(reel_line(4).weight * reel_line(4).weight == 81);
        assert(reel_line(4).weight * reel_line(4).weight * reel_line(0).weight == 2430);
    }
    assert(weighted_return(169) == 829053);
    assert(combination_return(169) == 4050) by {
        assert(169int / 36 == 4 && (169int / 6) % 6 == 4 && 169int % 6 == 1);
        assert(reel_line(4).weight * reel_line(4).weight == 81);
        assert(reel_line(4).weight * reel_line(4).weight * reel_line(1).weight == 2025);
    }
    assert(weighted_return(170) == 833103);
    assert(combination_return(170) == 2916) by {
        assert(170int / 36 == 4 && (170int / 6) % 6 == 4 && 170int % 6 == 2);
        assert(reel_line(4).weight * reel_line(4).weight == 81);
        assert(reel_line(4).weight * reel_line(4).weight * reel_line(2).weight == 1458);
    }
    assert(weighted_return(171) == 836019);
    assert(combination_return(171) == 1944) by {
        assert(171int / 36 == 4 && (171int / 6) % 6 == 4 && 171int % 6 == 3);
        assert(reel_line(4).weight * reel_line(4).weight == 81);
        assert(reel_line(4).weight * reel_line(4).weight * reel_line(3).weight == 972);
    }
    assert(weighted_return(172) == 837963);
    assert(combination_return(172) == 43740) by {
        assert(172int / 36 == 4 && (172int / 6) % 6 == 4 && 172int % 6 == 4);
        assert(reel_line(4).weight * reel_line(4).weight == 81);
        assert(reel_line(4).weight * reel_line(4).weight * reel_line(4).weight == 729);
    }
    assert(weighted_return(173) == 881703);
    assert(combination_return(173) == 972) by {
        assert(173int / 36 == 4 && (173int / 6) % 6 == 4 && 173int % 6 == 5);
        assert(reel_line(4).weight * reel_line(4).weight == 81);
        assert(reel_line(4).weight * reel_line(4).weight * reel_line(5).weight == 486);
    }
    assert(weighted_return(174) == 882675);
    assert(combination_return(174) == 0) by {
        assert(174int / 36 == 4 && (174int / 6) % 6 == 5 && 174int % 6 == 0);
        assert(reel_line(4).weight * reel_line(5).weight == 54);
        assert(reel_line(4).weight * reel_line(5).weight * reel_line(0).weight == 1620);
    }
    assert(weighted_return(175) == 882675);
    assert(combination_return(175) == 0) by {
        assert(175int / 36 == 4 && (175int / 6) % 6 == 5 && 175int % 6 == 1);
        assert(reel_line(4).weight * reel_line(5).weight == 54);
        assert(reel_line(4).weight * reel_line(5).weight * reel_line(1).weight == 1350);
    }
    assert(weighted_return(176) == 882675);
    assert(combination_return(176) == 0) by {
        assert(176int / 36 == 4 && (176int / 6) % 6 == 5 && 176int % 6 == 2);
        assert(reel_line(4).weight * reel_line(5).weight == 54);
        assert(reel_line(4).weight * reel_line(5).weight * reel_line(2).weight == 972);
    }
    assert(weighted_return(177) == 882675);
    assert(combination_return(177) == 0) by {
        assert(177int / 36 == 4 && (177int / 6) % 6 == 5 && 177int % 6 == 3);
        assert(reel_line(4).weight * reel_line(5).weight == 54);
        assert(reel_line(4).weight * reel_line(5).weight * reel_line(3).weight == 648);
    }
    assert(weighted_return(178) == 882675);
    assert(combination_return(178) == 972) by {
        assert(178int / 36 == 4 && (178int / 6) % 6 == 5 && 178int % 6 == 4);
        assert(reel_line(4).weight * reel_line(5).weight == 54);
        assert(reel_line(4).weight * reel_line(5).weight * reel_line(4).weight == 486);
    }
    assert(weighted_return(179) == 883647);
    assert(combination_return(179) == 972) by {
        assert(179int / 36 == 4 && (179int / 6) % 6 == 5 && 179int % 6 == 5);
        assert(reel_line(4).weight * reel_line(5).weight == 54);
        assert(reel_line(4).weight * reel_line(5).weight * reel_line(5).weight == 324);
    }
    assert(weighted_return(180) == 884619);
}

/// The running return after the 36 combinations whose first reel shows
/// Seven (numbers 180 to 215), added up one combination at a time.
proof fn lemma_return_through_block_5()
    requires
        weighted_return(180) == 884619,
    ensures
        weighted_return(216) == 951117,
{
    assert(combination_return(180) == 5400) by {
        assert(180int / 36 == 5 && (180int / 6) % 6 == 0 && 180int % 6 == 0);
        assert(reel_line(5).weight * reel_line(0).weight == 180);
        assert(reel_line(5).weight * reel_line(0).weight * reel_line(0).weight == 5400);
    }
    assert(weighted_return(181) == 890019);
    assert(combination_return(181) == 0) by {
        assert(181int / 36 == 5 && (181int / 6) % 6 == 0 && 181int % 6 == 1);
        assert(reel_line(5).weight * reel_line(0).weight == 180);
        assert(reel_line(5).weight * reel_line(0).weight * reel_line(1).weight == 4500);
    }
    assert(weighted_return(182) == 890019);
    assert(combination_return(182) == 0) by {
        assert(182int / 36 == 5 && (182int / 6) % 6 == 0 && 182int % 6 == 2);
        assert(reel_line(5).weight * reel_line(0).weight == 180);
        assert(reel_line(5).weight * reel_line(0).weight * reel_line(2).weight == 3240);
    }
    assert(weighted_return(183) == 890019);
    assert(combination_return(183) == 0) by {
        assert(183int / 36 == 5 && (183int / 6) % 6 == 0 && 183int % 6 == 3);
        assert(reel_line(5).weight * reel_line(0).weight == 180);
        assert(reel_line(5).weight * reel_line(0).weight * reel_line(3).weight == 2160);
    }
    assert(weighted_return(184) == 890019);
    assert(combination_return(184) == 0) by {
        assert(184int / 36 == 5 && (184int / 6) % 6 == 0 && 184int % 6 == 4);
        assert(reel_line(5).weight * reel_line(0).weight == 180);
        assert(reel_line(5).weight * reel_line(0).weight * reel_line(4).weight == 1620);
    }
    assert(weighted_return(185) == 890019);
    assert(combination_return(185) == 3240) by {
        assert(185int / 36 == 5 && (185int / 6) % 6 == 0 && 185int % 6 == 5);
        assert(reel_line(5).weight * reel_line(0).weight == 180);
        assert(reel_line(5).weight * reel_line(0).weight * reel_line(5).weight == 1080);
    }
    assert(weighted_return(186) == 893259);
    assert(combination_return(186) == 0) by {
        assert(186int / 36 == 5 && (186int / 6) % 6 == 1 && 186int % 6 == 0);
        assert(reel_line(5).weight * reel_line(1).weight == 150);
        assert(reel_line(5).weight * reel_line(1).weight * reel_line(0).weight == 4500);
    }
    assert(weighted_return(187) == 893259);
    assert(combination_return(187) == 3750) by {
        assert(187int / 36 == 5 && (187int / 6) % 6 == 1 && 187int % 6 == 1);
        assert(reel_line(5).weight * reel_line(1).weight == 150);
        assert(reel_line(5).weight * reel_line(1).weight * reel_line(1).weight == 3750);
    }
    assert(weighted_return(188) == 897009);
    assert(combination_return(188) == 0) by {
        assert(188int / 36 == 5 && (188int / 6) % 6 == 1 && 188int % 6 == 2);
        assert(reel_line(5).weight * reel_line(1).weight == 150);
        assert(reel_line(5).weight * reel_line(1).weight * reel_line(2).weight == 2700);
    }
    assert(weighted_return(189) == 897009);
    assert(combination_return(189) == 0) by {
        assert(189int / 36 == 5 && (189int / 6) % 6 == 1 && 189int % 6 == 3);
        assert(reel_line(5).weight * reel_line(1).weight == 150);
        assert(reel_line(5).weight * reel_line(1).weight * reel_line(3).weight == 1800);
    }
    assert(weighted_return(190) == 897009);
    assert(combination_return(190) == 0) by {
        assert(190int / 36 == 5 && (190int / 6) % 6 == 1 && 190int % 6 == 4);
        assert(reel_line(5).weight * reel_line(1).weight == 150);
        assert(reel_line(5).weight * reel_line(1).weight * reel_line(4).weight == 1350);
    }
    assert(weighted_return(191) == 897009);
    assert(combination_return(191) == 2700) by {
        assert(191int / 36 == 5 && (191int / 6) % 6 == 1 && 191int % 6 == 5);
        assert(reel_line(5).weight * reel_line(1).weight == 150);
        assert(reel_line(5).weight * reel_line(1).weight * reel_line(5).weight == 900);
    }
    assert(weighted_return(192) == 899709);
    assert(combination_return(192) == 0) by {
        assert(192int / 36 == 5 && (192int / 6) % 6 == 2 && 192int % 6 == 0);
        assert(reel_line(5).weight * reel_line(2).weight == 108);
        assert(reel_line(5).weight * reel_line(2).weight * reel_line(0).weight == 3240);
    }
    assert(weighted_return(193) == 899709);
    assert(combination_return(193) == 0) by {
        assert(193int / 36 == 5 && (193int / 6) % 6 == 2 && 193int % 6 == 1);
        assert(reel_line(5).weight * reel_line(2).weight == 108);
        assert(reel_line(5).weight * reel_line(2).weight * reel_line(1).weight == 2700);
    }
    assert(weighted_return(194) == 899709);
    assert(combination_return(194) == 1944) by {
        assert(194int / 36 == 5 && (194int / 6) % 6 == 2 && 194int % 6 == 2);
        assert(reel_line(5).weight * reel_line(2).weight == 108);
        assert(reel_line(5).weight * reel_line(2).weight * reel_line(2).weight == 1944);
    }
    assert(weighted_return(195) == 901653);
    assert(combination_return(195) == 0) by {
        assert(195int / 36 == 5 && (195int / 6) % 6 == 2 && 195int % 6 == 3);
        assert(reel_line(5).weight * reel_line(2).weight == 108);
        assert(reel_line(5).weight * reel_line(2).weight * reel_line(3).weight == 1296);
    }
    assert(weighted_return(196) == 901653);
    assert(combination_return(196) == 0) by {
        assert(196int / 36 == 5 && (196int / 6) % 6 == 2 && 196int % 6 == 4);
        assert(reel_line(5).weight * reel_line(2).weight == 108);
        assert(reel_line(5).weight * reel_line(2).weight * reel_line(4).weight == 972);
    }
    assert(weighted_return(197) == 901653);
    assert(combination_return(197) == 1944) by {
        assert(197int / 36 == 5 && (197int / 6) % 6 == 2 && 197int % 6 == 5);
        assert(reel_line(5).weight * reel_line(2).weight == 108);
        assert(reel_line(5).weight * reel_line(2).weight * reel_line(5).weight == 648);
    }
    assert(weighted_return(198) == 903597);
    assert(combination_return(198) == 0) by {
        assert(198int / 36 == 5 && (198int / 6) % 6 == 3 && 198int % 6 == 0);
        assert(reel_line(5).weight * reel_line(3).weight == 72);
        assert(reel_line(5).weight * reel_line(3).weight * reel_line(0).weight == 2160);
    }
    assert(weighted_return(199) == 903597);
    assert(combination_return(199) == 0) by {
        assert(199int / 36 == 5 && (199int / 6) % 6 == 3 && 199int % 6 == 1);
        assert(reel_line(5).weight * reel_line(3).weight == 72);
        assert(reel_line(5).weight * reel_line(3).weight * reel_line(1).weight == 1800);
    }
    assert(weighted_return(200) == 903597);
    assert(combination_return(200) == 0) by {
        assert(200int / 36 == 5 && (200int / 6) % 6 == 3 && 200int % 6 == 2);
        assert(reel_line(5).weight * reel_line(3).weight == 72);
        assert(reel_line(5).weight * reel_line(3).weight * reel_line(2).weight == 1296);
    }
    assert(weighted_return(201) == 903597);
    assert(combination_return(201) == 1728) by {
        assert(201int / 36 == 5 && (201int / 6) % 6 == 3 && 201int % 6 == 3);
        assert(reel_line(5).weight * reel_line(3).weight == 72);
        assert(reel_line(5).weight * reel_line(3).weight * reel_line(3).weight == 864);
    }
    assert(weighted_return(202) == 905325);
    assert(combination_return(202) == 0) by {
        assert(202int / 36 == 5 && (202int / 6) % 6 == 3 && 202int % 6 == 4);
        assert(reel_line(5).weight * reel_line(3).weight == 72);
        assert(reel_line(5).weight * reel_line(3).weight * reel_line(4).weight == 648);
    }
    assert(weighted_return(203) == 905325);
    assert(combination_return(203) == 1296) by {
        assert(203int / 36 == 5 && (203int / 6) % 6 == 3 && 203int % 6 == 5);
        assert(reel_line(5).weight * reel_line(3).weight == 72);
        assert(reel_line(5).weight * reel_line(3).weight * reel_line(5).weight == 432);
    }
    assert(weighted_return(204) == 906621);
    assert(combination_return(204) == 0) by {
        assert(204int / 36 == 5 && (204int / 6) % 6 == 4 && 204int % 6 == 0);
        assert(reel_line(5).weight * reel_line(4).weight == 54);
        assert(reel_line(5).weight * reel_line(4).weight * reel_line(0).weight == 1620);
    }
    assert(weighted_return(205) == 906621);
    assert(combination_return(205) == 0) by {
        assert(205int / 36 == 5 && (205int / 6) % 6 == 4 && 205int % 6 == 1);
        assert(reel_line(5).weight * reel_line(4).weight == 54);
        assert(reel_line(5).weight * reel_line(4).weight * reel_line(1).weight == 1350);
    }
    assert(weighted_return(206) == 906621);
    assert(combination_return(206) == 0) by {
        assert(206int / 36 == 5 && (206int / 6) % 6 == 4 && 206int % 6 == 2);
        assert(reel_line(5).weight * reel_line(4).weight == 54);
        assert(reel_line(5).weight * reel_line(4).weight * reel_line(2).weight == 972);
    }
    assert(weighted_return(207) == 906621);
    assert(combination_return(207) == 0) by {
        assert(207int / 36 == 5 && (207int / 6) % 6 == 4 && 207int % 6 == 3);
        assert(reel_line(5).weight * reel_line(4).weight == 54);
        assert(reel_line(5).weight * reel_line(4).weight * reel_line(3).weight == 648);
    }
    assert(weighted_return(208) == 906621);
    assert(combination_return(208) == 972) by {
        assert(208int / 36 == 5 && (208int / 6) % 6 == 4 && 208int % 6 == 4);
        assert(reel_line(5).weight * reel_line(4).weight == 54);
        assert(reel_line(5).weight * reel_line(4).weight * reel_line(4).weight == 486);
    }
    assert(weighted_return(209) == 907593);
    assert(combination_return(209) == 972) by {
        assert(209int / 36 == 5 && (209int / 6) % 6 == 4 && 209int % 6 == 5);
        assert(reel_line(5).weight * reel_line(4).weight == 54);
        assert(reel_line(5).weight * reel_line(4).weight * reel_line(5).weight == 324);
    }
    assert(weighted_return(210) == 908565);
    assert(combination_return(210) == 3240) by {
        assert(210int / 36 == 5 && (210int / 6) % 6 == 5 && 210int % 6 == 0);
        assert(reel_line(5).weight * reel_line(5).weight == 36);
        assert(reel_line(5).weight * reel_line(5).weight * reel_line(0).weight == 1080);
    }
    assert(weighted_return(211) == 911805);
    assert(combination_return(211) == 2700) by {
        assert(211int / 36 == 5 && (211int / 6) % 6 == 5 && 211int % 6 == 1);
        assert(reel_line(5).weight * reel_line(5).weight == 36);
        assert(reel_line(5).weight * reel_line(5).weight * reel_line(1).weight == 900);
    }
    assert(weighted_return(212) == 914505);
    assert(combination_return(212) == 1944) by {
        assert(212int / 36 == 5 && (212int / 6) % 6 == 5 && 212int % 6 == 2);
        assert(reel_line(5).weight * reel_line(5).weight == 36);
        assert(reel_line(5).weight * reel_line(5).weight * reel_line(2).weight == 648);
    }
    assert(weighted_return(213) == 916449);
    assert(combination_return(213) == 1296) by {
        assert(213int / 36 == 5 && (213int / 6) % 6 == 5 && 213int % 6 == 3);
        assert(reel_line(5).weight * reel_line(5).weight == 36);
        assert(reel_line(5).weight * reel_line(5).weight * reel_line(3).weight == 432);
    }
    assert(weighted_return(214) == 917745);
    assert(combination_return(214) == 972) by {
        assert(214int / 36 == 5 && (214int / 6) % 6 == 5 && 214int % 6 == 4);
        assert(reel_line(5).weight * reel_line(5).weight == 36);
        assert(reel_line(5).weight * reel_line(5).weight * reel_line(4).weight == 324);
    }
    assert(weighted_return(215) == 918717);
    assert(combination_return(215) == 32400) by {
        assert(215int / 36 == 5 && (215int / 6) % 6 == 5 && 215int % 6 == 5);
        assert(reel_line(5).weight * reel_line(5).weight == 36);
        assert(reel_line(5).weight * reel_line(5).weight * reel_line(5).weight == 216);
    }
    assert(weighted_return(216) == 951117);
}

/// The machine returns 951,117 coins per million staked: a house edge of
/// about 4.9%, generous enough to be worth playing and still profitable for
/// the house (inside the 90% to 97% band).
pub proof fn lemma_the_house_keeps_a_small_edge()
    ensures
        weighted_return(216) == 951_117,
        900_000 <= weighted_return(216) < 970_000,
{
    assert(weighted_return(0) == 0);
    lemma_return_through_block_0();
    lemma_return_through_block_1();
    lemma_return_through_block_2();
    lemma_return_through_block_3();
    lemma_return_through_block_4();
    lemma_return_through_block_5();
}

} // verus!
