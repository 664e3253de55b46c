//! Jacks or Better video poker.
//!
//! Five cards from a shuffled 52-card deck, then a single draw of anything
//! the player does not hold. The paytable is **6/5 Jacks or Better**: a full
//! house pays 6x and a flush pays 5x, which is the published ~95% return with
//! optimal hold strategy, close to the slot machine's house edge, so neither
//! game is the obvious place to stand.

use rand::rngs::StdRng;
use vstd::prelude::*;

use crate::arith::{saturate, saturating_mul};
use super::cards::{deck_seq, lemma_shuffled_deck_has_no_duplicates, rank_value, shuffled_deck};
pub use super::cards::{standard_deck, Card, Rank, Suit, DECK_SIZE};

verus! {

pub const HAND_SIZE: usize = 5;

/// The lowest and highest a player may stake on one hand.
pub const MIN_BET: i64 = 1;

pub const MAX_BET: i64 = 500;

pub type Hand = [Card; HAND_SIZE];

#[derive(Debug, Clone, Copy, PartialEq, Eq, Hash, Structural)]
pub enum HandKind {
    Nothing,
    JacksOrBetter,
    TwoPair,
    ThreeOfAKind,
    Straight,
    Flush,
    FullHouse,
    FourOfAKind,
    StraightFlush,
    RoyalFlush,
}

/// 6/5 Jacks or Better. The royal is the five-coin rate (800x) at every
/// stake, so the published return does not depend on how much is bet.
pub open spec fn kind_multiplier(kind: HandKind) -> i64 {
    match kind {
        HandKind::Nothing => 0,
        HandKind::JacksOrBetter => 1,
        HandKind::TwoPair => 2,
        HandKind::ThreeOfAKind => 3,
        HandKind::Straight => 4,
        HandKind::Flush => 5,
        HandKind::FullHouse => 6,
        HandKind::FourOfAKind => 25,
        HandKind::StraightFlush => 50,
        HandKind::RoyalFlush => 800,
    }
}

/// The paying hand in position `i` of the paytable, best first.
pub open spec fn paying_kind(i: int) -> HandKind {
    if i == 0 {
        HandKind::RoyalFlush
    } else if i == 1 {
        HandKind::StraightFlush
    } else if i == 2 {
        HandKind::FourOfAKind
    } else if i == 3 {
        HandKind::FullHouse
    } else if i == 4 {
        HandKind::Flush
    } else if i == 5 {
        HandKind::Straight
    } else if i == 6 {
        HandKind::ThreeOfAKind
    } else if i == 7 {
        HandKind::TwoPair
    } else {
        HandKind::JacksOrBetter
    }
}

/// The paying hands, best first.
pub open spec fn paying_kinds() -> Seq<HandKind> {
    Seq::new(9, |i: int| paying_kind(i))
}

impl HandKind {
    pub fn multiplier(self) -> (m: i64)
        ensures
            m == kind_multiplier(self),
    {
        match self {
            HandKind::Nothing => 0,
            HandKind::JacksOrBetter => 1,
            HandKind::TwoPair => 2,
            HandKind::ThreeOfAKind => 3,
            HandKind::Straight => 4,
            HandKind::Flush => 5,
            HandKind::FullHouse => 6,
            HandKind::FourOfAKind => 25,
            HandKind::StraightFlush => 50,
            HandKind::RoyalFlush => 800,
        }
    }

    pub fn label(self) -> (name: &'static str)
        ensures
            name@ == kind_label(self),
    {
        match self {
            HandKind::Nothing => "Nothing",
            HandKind::JacksOrBetter => "Jacks or better",
            HandKind::TwoPair => "Two pair",
            HandKind::ThreeOfAKind => "Three of a kind",
            HandKind::Straight => "Straight",
            HandKind::Flush => "Flush",
            HandKind::FullHouse => "Full house",
            HandKind::FourOfAKind => "Four of a kind",
            HandKind::StraightFlush => "Straight flush",
            HandKind::RoyalFlush => "Royal flush",
        }
    }

    /// The paying hands, best first.
    pub const PAYTABLE: [HandKind; 9] = [
        HandKind::RoyalFlush,
        HandKind::StraightFlush,
        HandKind::FourOfAKind,
        HandKind::FullHouse,
        HandKind::Flush,
        HandKind::Straight,
        HandKind::ThreeOfAKind,
        HandKind::TwoPair,
        HandKind::JacksOrBetter,
    ];
}

/// The name a hand is shown under.
pub open spec fn kind_label(kind: HandKind) -> Seq<char> {
    match kind {
        HandKind::Nothing => "Nothing"@,
        HandKind::JacksOrBetter => "Jacks or better"@,
        HandKind::TwoPair => "Two pair"@,
        HandKind::ThreeOfAKind => "Three of a kind"@,
        HandKind::Straight => "Straight"@,
        HandKind::Flush => "Flush"@,
        HandKind::FullHouse => "Full house"@,
        HandKind::FourOfAKind => "Four of a kind"@,
        HandKind::StraightFlush => "Straight flush"@,
        HandKind::RoyalFlush => "Royal flush"@,
    }
}

/// What the five cards made, and what that pays as a multiple of the stake.
#[derive(Debug, Clone, Copy, PartialEq, Eq, Structural)]
pub struct Outcome {
    pub kind: HandKind,
    pub multiplier: i64,
}

impl Outcome {
    pub fn of(kind: HandKind) -> (outcome: Self)
        ensures
            outcome == (Outcome { kind, multiplier: kind_multiplier(kind) }),
    {
        Outcome { kind, multiplier: kind.multiplier() }
    }
}

/// Face value of a card with aces high.
pub open spec fn card_value(card: Card) -> int {
    rank_value(card.rank)
}

/// How many of `cards` have face value `v`.
pub open spec fn rank_count(cards: Seq<Card>, v: int) -> nat
    decreases cards.len(),
{
    if cards.len() == 0 {
        0
    } else {
        rank_count(cards.drop_last(), v) + (if card_value(cards.last()) == v {
            1nat
        } else {
            0nat
        })
    }
}

/// How many face values below `upto` appear exactly `k` times in `cards`.
pub open spec fn values_seen(cards: Seq<Card>, k: nat, upto: int) -> nat
    decreases upto,
{
    if upto <= 2 {
        0
    } else {
        values_seen(cards, k, upto - 1) + (if rank_count(cards, upto - 1) == k {
            1nat
        } else {
            0nat
        })
    }
}

/// Every card shares the first card's suit.
pub open spec fn is_flush(hand: Seq<Card>) -> bool {
    forall|i: int| 0 <= i < hand.len() ==> #[trigger] hand[i].suit == hand[0].suit
}

/// No two cards share a face value.
pub open spec fn distinct_values(hand: Seq<Card>) -> bool {
    forall|i: int, j: int|
        0 <= i < j < hand.len() ==> card_value(#[trigger] hand[i]) != card_value(#[trigger] hand[j])
}

/// Five consecutive values, ace high (ten to ace at most), or the wheel
/// A-2-3-4-5. K-A-2-3-4 does not wrap around.
pub open spec fn is_straight_hand(hand: Seq<Card>) -> bool {
    &&& distinct_values(hand)
    &&& {
        ||| forall|i: int, j: int|
            0 <= i < hand.len() && 0 <= j < hand.len() ==> card_value(#[trigger] hand[i])
                - card_value(#[trigger] hand[j]) <= 4
        ||| forall|i: int|
            0 <= i < hand.len() ==> {
                let v = card_value(#[trigger] hand[i]);
                v == 2 || v == 3 || v == 4 || v == 5 || v == 14
            }
    }
}

/// Ten, jack, queen, king, and ace.
pub open spec fn is_broadway(hand: Seq<Card>) -> bool {
    &&& distinct_values(hand)
    &&& forall|i: int| 0 <= i < hand.len() ==> card_value(#[trigger] hand[i]) >= 10
}

/// Some jack, queen, king, or ace appears exactly twice.
pub open spec fn has_high_pair(hand: Seq<Card>) -> bool {
    exists|v: int| 11 <= v <= 14 && #[trigger] rank_count(hand, v) == 2
}

/// Jacks or Better ranking of five cards.
pub open spec fn hand_kind(hand: Seq<Card>) -> HandKind {
    let flush = is_flush(hand);
    let straight = is_straight_hand(hand);
    let pairs = values_seen(hand, 2, 15);
    let trips = values_seen(hand, 3, 15) > 0;
    let quads = values_seen(hand, 4, 15) > 0;
    if flush && is_broadway(hand) {
        HandKind::RoyalFlush
    } else if flush && straight {
        HandKind::StraightFlush
    } else if quads {
        HandKind::FourOfAKind
    } else if trips && pairs == 1 {
        HandKind::FullHouse
    } else if flush {
        HandKind::Flush
    } else if straight {
        HandKind::Straight
    } else if trips {
        HandKind::ThreeOfAKind
    } else if pairs == 2 {
        HandKind::TwoPair
    } else if pairs == 1 && has_high_pair(hand) {
        HandKind::JacksOrBetter
    } else {
        HandKind::Nothing
    }
}

/// Shuffles a fresh deck and deals five cards. The remaining 47 stay on the
/// server: they are the stock the draw is taken from, and they are never sent
/// to the client.
pub fn deal(rng: &mut StdRng) -> (dealt: (Hand, Vec<Card>))
    ensures
        dealt.1@.len() == DECK_SIZE - HAND_SIZE,
        (dealt.0@ + dealt.1@).to_multiset() == deck_seq().to_multiset(),
        (dealt.0@ + dealt.1@).no_duplicates(),
{
    let mut deck = shuffled_deck(rng);
    let ghost shuffled = deck@;
    let hand: Hand = [deck[0], deck[1], deck[2], deck[3], deck[4]];
    let remaining = deck.split_off(HAND_SIZE);
    assert(hand@ + remaining@ =~= shuffled);
    proof {
        lemma_shuffled_deck_has_no_duplicates(shuffled);
    }
    (hand, remaining)
}

/// How many of the first `upto` positions the player did not hold.
pub open spec fn discards_before(held: Seq<bool>, upto: int) -> int
    decreases upto,
{
    if upto <= 0 {
        0
    } else {
        discards_before(held, upto - 1) + (if held[upto - 1] {
            0int
        } else {
            1int
        })
    }
}

/// Replaces every card that is not held, in left-to-right order, from the
/// front of the remaining stock.
pub fn draw(hand: Hand, held: [bool; HAND_SIZE], remaining: &[Card]) -> (next: Hand)
    requires
        remaining@.len() >= discards_before(held@, 5),
    ensures
        forall|i: int|
            0 <= i < 5 ==> #[trigger] next@[i] == if held@[i] {
                hand@[i]
            } else {
                remaining@[discards_before(held@, i)]
            },
{
    let mut next = hand;
    let mut taken: usize = 0;
    let mut index: usize = 0;
    while index < HAND_SIZE
        invariant
            index <= 5,
            taken == discards_before(held@, index as int),
            remaining@.len() >= discards_before(held@, 5),
            forall|i: int| index <= i < 5 ==> #[trigger] next@[i] == hand@[i],
            forall|i: int|
                0 <= i < index ==> #[trigger] next@[i] == if held@[i] {
                    hand@[i]
                } else {
                    remaining@[discards_before(held@, i)]
                },
        decreases 5 - index,
    {
        proof {
            lemma_discards_grow(held@, index as int + 1, 5);
        }
        if !held[index] {
            next[index] = remaining[taken];
            taken += 1;
        }
        index += 1;
    }
    next
}

/// Discards only accumulate as the scan moves right.
proof fn lemma_discards_grow(held: Seq<bool>, a: int, b: int)
    requires
        0 <= a <= b,
    ensures
        discards_before(held, a) <= discards_before(held, b),
    decreases b - a,
{
    if a < b {
        lemma_discards_grow(held, a, b - 1);
    }
}

/// Classifies a five-card hand under Jacks or Better ranking.
pub fn evaluate(hand: Hand) -> (outcome: Outcome)
    ensures
        outcome.kind == hand_kind(hand@),
        outcome.multiplier == kind_multiplier(outcome.kind),
{
    let flush = is_flush_exec(&hand);
    let straight = is_straight(hand);
    let royal = flush && is_royal(hand);

    let mut freq = [0u8; 15];
    let mut index: usize = 0;
    while index < HAND_SIZE
        invariant
            index <= 5,
            forall|v: int|
                0 <= v < 15 ==> #[trigger] freq@[v] as int == rank_count(hand@.take(index as int), v),
            forall|v: int| 0 <= v < 15 ==> #[trigger] freq@[v] <= index,
        decreases 5 - index,
    {
        let value = hand[index].rank.value() as usize;
        proof {
            assert(hand@.take(index as int + 1).drop_last() =~= hand@.take(index as int));
        }
        freq[value] = freq[value] + 1;
        index += 1;
    }
    assert(hand@.take(5) =~= hand@);

    let mut pairs: u8 = 0;
    let mut high_pair = false;
    let mut trips = false;
    let mut quads = false;
    let mut r: usize = 0;
    while r < 13
        invariant
            r <= 13,
            forall|v: int| 0 <= v < 15 ==> #[trigger] freq@[v] as int == rank_count(hand@, v),
            pairs == values_seen(hand@, 2, r as int + 2),
            pairs <= r,
            trips == (values_seen(hand@, 3, r as int + 2) > 0),
            quads == (values_seen(hand@, 4, r as int + 2) > 0),
            high_pair == (exists|v: int| 11 <= v < r + 2 && #[trigger] rank_count(hand@, v) == 2),
        decreases 13 - r,
    {
        let rank = Rank::ALL[r];
        assert(rank_value(rank) == r + 2);
        let count = freq[rank.value() as usize];
        if count == 2 {
            pairs += 1;
            if rank.is_high() {
                high_pair = true;
            }
        } else if count == 3 {
            trips = true;
        } else if count == 4 {
            quads = true;
        }
        proof {
            if high_pair {
                let w = choose|v: int| 11 <= v < r + 2 && #[trigger] rank_count(hand@, v) == 2;
                if count == 2 && rank_value(rank) >= 11 {
                    assert(rank_count(hand@, r + 2) == 2);
                } else {
                    assert(11 <= w < r + 3 && rank_count(hand@, w) == 2);
                }
            }
        }
        r += 1;
    }
    assert(has_high_pair(hand@) == high_pair);

    let kind = if royal {
        HandKind::RoyalFlush
    } else if flush && straight {
        HandKind::StraightFlush
    } else if quads {
        HandKind::FourOfAKind
    } else if trips && pairs == 1 {
        HandKind::FullHouse
    } else if flush {
        HandKind::Flush
    } else if straight {
        HandKind::Straight
    } else if trips {
        HandKind::ThreeOfAKind
    } else if pairs == 2 {
        HandKind::TwoPair
    } else if pairs == 1 && high_pair {
        HandKind::JacksOrBetter
    } else {
        HandKind::Nothing
    };

    Outcome::of(kind)
}

fn is_flush_exec(hand: &Hand) -> (flush: bool)
    ensures
        flush == is_flush(hand@),
{
    let suit = hand[0].suit;
    let mut index: usize = 1;
    while index < HAND_SIZE
        invariant
            1 <= index <= 5,
            suit == hand@[0].suit,
            forall|i: int| 0 <= i < index ==> #[trigger] hand@[i].suit == suit,
        decreases 5 - index,
    {
        if hand[index].suit != suit {
            return false;
        }
        index += 1;
    }
    true
}

fn has_distinct_values(hand: Hand) -> (distinct: bool)
    ensures
        distinct == distinct_values(hand@),
{
    let mut i: usize = 0;
    while i < HAND_SIZE
        invariant
            i <= 5,
            forall|a: int, b: int|
                0 <= a < b < 5 && a < i ==> card_value(#[trigger] hand@[a]) != card_value(
                    #[trigger] hand@[b],
                ),
        decreases 5 - i,
    {
        let mut j: usize = i + 1;
        while j < HAND_SIZE
            invariant
                i < 5,
                i + 1 <= j <= 5,
                forall|a: int, b: int|
                    0 <= a < b < 5 && a < i ==> card_value(#[trigger] hand@[a]) != card_value(
                        #[trigger] hand@[b],
                    ),
                forall|b: int| i < b < j ==> card_value(hand@[i as int]) != card_value(#[trigger] hand@[b]),
            decreases 5 - j,
        {
            if hand[i].rank.value() == hand[j].rank.value() {
                return false;
            }
            j += 1;
        }
        i += 1;
    }
    true
}

fn is_straight(hand: Hand) -> (straight: bool)
    ensures
        straight == is_straight_hand(hand@),
{
    if !has_distinct_values(hand) {
        return false;
    }
    let mut close = true;
    let mut wheel = true;
    let mut i: usize = 0;
    while i < HAND_SIZE
        invariant
            i <= 5,
            close == (forall|a: int, b: int|
                0 <= a < i && 0 <= b < 5 ==> card_value(#[trigger] hand@[a]) - card_value(
                    #[trigger] hand@[b],
                ) <= 4),
            wheel == (forall|a: int|
                0 <= a < i ==> {
                    let v = card_value(#[trigger] hand@[a]);
                    v == 2 || v == 3 || v == 4 || v == 5 || v == 14
                }),
        decreases 5 - i,
    {
        let v = hand[i].rank.value();
        if !(v == 2 || v == 3 || v == 4 || v == 5 || v == 14) {
            wheel = false;
        }
        let mut j: usize = 0;
        let mut row = true;
        while j < HAND_SIZE
            invariant
                i < 5,
                j <= 5,
                v == card_value(hand@[i as int]),
                row == (forall|b: int| 0 <= b < j ==> v - card_value(#[trigger] hand@[b]) <= 4),
            decreases 5 - j,
        {
            let w = hand[j].rank.value();
            if v > w && v - w > 4 {
                row = false;
            }
            j += 1;
        }
        close = close && row;
        i += 1;
    }
    close || wheel
}

fn is_royal(hand: Hand) -> (royal: bool)
    ensures
        royal == is_broadway(hand@),
{
    if !has_distinct_values(hand) {
        return false;
    }
    let mut i: usize = 0;
    while i < HAND_SIZE
        invariant
            i <= 5,
            forall|a: int| 0 <= a < i ==> card_value(#[trigger] hand@[a]) >= 10,
        decreases 5 - i,
    {
        if hand[i].rank.value() < 10 {
            return false;
        }
        i += 1;
    }
    true
}

/// What a stake of `bet` returns for this outcome. Gross return, not profit:
/// Jacks or better hands the stake back.
pub fn payout(outcome: Outcome, bet: i64) -> (paid: i64)
    ensures
        paid == saturate(bet * outcome.multiplier),
{
    saturating_mul(bet, outcome.multiplier)
}

/// The paytable as the client should display it, highest paying first.
#[derive(Debug, Clone, Copy, PartialEq, Eq)]
pub struct PaytableEntry {
    pub kind: HandKind,
    pub name: &'static str,
    pub multiplier: i64,
}

/// The paying hands, best first, with their names and multipliers. Rarer
/// hands pay strictly more.
pub fn paytable() -> (entries: Vec<PaytableEntry>)
    ensures
        entries@.len() == 9,
        forall|k: int|
            0 <= k < 9 ==> {
                &&& (#[trigger] entries@[k]).kind == paying_kinds()[k]
                &&& entries@[k].name@ == kind_label(paying_kinds()[k])
                &&& entries@[k].multiplier == kind_multiplier(paying_kinds()[k])
            },
        forall|j: int, k: int|
            0 <= j < k < 9 ==> #[trigger] entries@[j].multiplier > #[trigger] entries@[k].multiplier,
{
    let table = HandKind::PAYTABLE;
    assert(table@ =~= paying_kinds());
    let mut entries: Vec<PaytableEntry> = Vec::new();
    let mut k: usize = 0;
    while k < table.len()
        invariant
            k <= 9,
            table@ == paying_kinds(),
            entries@.len() == k,
            forall|i: int|
                0 <= i < k ==> {
                    &&& (#[trigger] entries@[i]).kind == paying_kinds()[i]
                    &&& entries@[i].name@ == kind_label(paying_kinds()[i])
                    &&& entries@[i].multiplier == kind_multiplier(paying_kinds()[i])
                },
        decreases 9 - k,
    {
        let kind = table[k];
        entries.push(PaytableEntry { kind, name: kind.label(), multiplier: kind.multiplier() });
        k += 1;
    }
    assert(entries@[0].multiplier == 800);
    assert(entries@[1].multiplier == 50);
    assert(entries@[2].multiplier == 25);
    assert(entries@[3].multiplier == 6);
    assert(entries@[4].multiplier == 5);
    assert(entries@[5].multiplier == 4);
    assert(entries@[6].multiplier == 3);
    assert(entries@[7].multiplier == 2);
    assert(entries@[8].multiplier == 1);
    entries
}

} // verus!
