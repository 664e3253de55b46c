//! A standard 52-card French deck, shared by the table games.
//!
//! Cards travel as `{ "rank": "ace", "suit": "spades" }` so every client draws
//! the same card the same way.

use rand::rngs::StdRng;
use vstd::prelude::*;

use crate::random::shuffle_cards;

verus! {

pub const DECK_SIZE: usize = 52;

#[derive(Debug, Clone, Copy, PartialEq, Eq, Hash, Structural)]
pub enum Suit {
    Clubs,
    Diamonds,
    Hearts,
    Spades,
}

impl Suit {
    pub const ALL: [Suit; 4] = [Suit::Clubs, Suit::Diamonds, Suit::Hearts, Suit::Spades];

    /// The suit in position `index` of [`Suit::ALL`].
    pub open spec fn nth(index: int) -> Suit {
        if index == 0 {
            Suit::Clubs
        } else if index == 1 {
            Suit::Diamonds
        } else if index == 2 {
            Suit::Hearts
        } else {
            Suit::Spades
        }
    }

    /// Position of the suit in [`Suit::ALL`].
    pub open spec fn index_of(self) -> int {
        match self {
            Suit::Clubs => 0,
            Suit::Diamonds => 1,
            Suit::Hearts => 2,
            Suit::Spades => 3,
        }
    }
}

/// Ace-high ordering. Ace-low straights and blackjack pip values are special
/// cases in the games that need them.
#[derive(Debug, Clone, Copy, PartialEq, Eq, PartialOrd, Ord, Hash, Structural)]
pub enum Rank {
    Two,
    Three,
    Four,
    Five,
    Six,
    Seven,
    Eight,
    Nine,
    Ten,
    Jack,
    Queen,
    King,
    Ace,
}

/// Face value with aces high: two is 2, jack 11, queen 12, king 13, ace 14.
pub open spec fn rank_value(rank: Rank) -> int {
    match rank {
        Rank::Two => 2,
        Rank::Three => 3,
        Rank::Four => 4,
        Rank::Five => 5,
        Rank::Six => 6,
        Rank::Seven => 7,
        Rank::Eight => 8,
        Rank::Nine => 9,
        Rank::Ten => 10,
        Rank::Jack => 11,
        Rank::Queen => 12,
        Rank::King => 13,
        Rank::Ace => 14,
    }
}

/// Blackjack pip value: ace 1, tens and faces 10, everything else its face.
pub open spec fn rank_pip(rank: Rank) -> int {
    if rank == Rank::Ace {
        1
    } else if rank_value(rank) >= 10 {
        10
    } else {
        rank_value(rank)
    }
}

impl Rank {
    pub const ALL: [Rank; 13] = [
        Rank::Two,
        Rank::Three,
        Rank::Four,
        Rank::Five,
        Rank::Six,
        Rank::Seven,
        Rank::Eight,
        Rank::Nine,
        Rank::Ten,
        Rank::Jack,
        Rank::Queen,
        Rank::King,
        Rank::Ace,
    ];

    /// The rank in position `index` of [`Rank::ALL`], the one whose value is `index + 2`.
    pub open spec fn nth(index: int) -> Rank {
        if index <= 0 {
            Rank::Two
        } else if index == 1 {
            Rank::Three
        } else if index == 2 {
            Rank::Four
        } else if index == 3 {
            Rank::Five
        } else if index == 4 {
            Rank::Six
        } else if index == 5 {
            Rank::Seven
        } else if index == 6 {
            Rank::Eight
        } else if index == 7 {
            Rank::Nine
        } else if index == 8 {
            Rank::Ten
        } else if index == 9 {
            Rank::Jack
        } else if index == 10 {
            Rank::Queen
        } else if index == 11 {
            Rank::King
        } else {
            Rank::Ace
        }
    }

    pub fn value(self) -> (v: u8)
        ensures
            v == rank_value(self),
            2 <= v <= 14,
    {
        match self {
            Rank::Two => 2,
            Rank::Three => 3,
            Rank::Four => 4,
            Rank::Five => 5,
            Rank::Six => 6,
            Rank::Seven => 7,
            Rank::Eight => 8,
            Rank::Nine => 9,
            Rank::Ten => 10,
            Rank::Jack => 11,
            Rank::Queen => 12,
            Rank::King => 13,
            Rank::Ace => 14,
        }
    }

    /// Jack, Queen, King, or Ace: the pairs that pay in Jacks or Better.
    pub fn is_high(self) -> (high: bool)
        ensures
            high == (rank_value(self) >= 11),
    {
        self.value() >= 11
    }

    /// Blackjack pip value: ace is 1 (soft 11 is applied later), faces are 10.
    pub fn pip(self) -> (p: u8)
        ensures
            p == rank_pip(self),
            1 <= p <= 10,
    {
        match self {
            Rank::Ace => 1,
            Rank::Ten | Rank::Jack | Rank::Queen | Rank::King => 10,
            other => other.value(),
        }
    }

    pub fn is_ten(self) -> (ten: bool)
        ensures
            ten == (rank_pip(self) == 10),
    {
        self.pip() == 10
    }
}

#[derive(Debug, Clone, Copy, PartialEq, Eq, Hash, Structural)]
pub struct Card {
    pub rank: Rank,
    pub suit: Suit,
}

/// The card at position `index` of an unshuffled deck: thirteen ranks, low to
/// high, for each suit in turn.
pub open spec fn deck_card(index: int) -> Card {
    Card { rank: Rank::nth(index % 13), suit: Suit::nth(index / 13) }
}

/// Each rank and suit appears exactly once per 52-card deck, so a deck position
/// is determined by its card.
pub proof fn lemma_deck_card_injective(i: int, j: int)
    requires
        0 <= i < 52,
        0 <= j < 52,
        deck_card(i) == deck_card(j),
    ensures
        i == j,
{
    assert(i % 13 == j % 13);
    assert(i / 13 == j / 13);
}

/// Every card there is sits somewhere in the unshuffled deck.
pub proof fn lemma_every_card_is_in_the_deck(card: Card)
    ensures
        exists|i: int| 0 <= i < 52 && deck_card(i) == card,
{
    let r = rank_value(card.rank) - 2;
    let s = card.suit.index_of();
    let i = s * 13 + r;
    assert(i % 13 == r && i / 13 == s);
    assert(deck_card(i) == card);
}

/// The unshuffled deck as a sequence.
pub open spec fn deck_seq() -> Seq<Card> {
    Seq::new(52, |i: int| deck_card(i))
}

/// No card appears twice in a deck.
pub proof fn lemma_deck_has_no_duplicates()
    ensures
        deck_seq().no_duplicates(),
{
    assert forall|i: int, j: int| 0 <= i < 52 && 0 <= j < 52 && i != j implies deck_seq()[i]
        != deck_seq()[j] by {
        if deck_seq()[i] == deck_seq()[j] {
            lemma_deck_card_injective(i, j);
        }
    }
}

/// Any reordering of a full deck still holds each card exactly once.
pub proof fn lemma_shuffled_deck_has_no_duplicates(cards: Seq<Card>)
    requires
        cards.to_multiset() == deck_seq().to_multiset(),
    ensures
        cards.no_duplicates(),
        cards.len() == 52,
        forall|card: Card| #[trigger] cards.contains(card),
{
    broadcast use vstd::seq_lib::group_to_multiset_ensures;

    lemma_deck_has_no_duplicates();
    deck_seq().lemma_multiset_has_no_duplicates();
    cards.lemma_multiset_has_no_duplicates_conv();
    assert(cards.len() == cards.to_multiset().len());
    assert forall|card: Card| #[trigger] cards.contains(card) by {
        lemma_every_card_is_in_the_deck(card);
        let i = choose|i: int| 0 <= i < 52 && deck_card(i) == card;
        assert(deck_seq()[i] == card);
        assert(deck_seq().contains(card));
        assert(deck_seq().to_multiset().count(card) > 0);
        assert(cards.to_multiset().count(card) > 0);
    }
}

/// A 52-card deck in rank-within-suit order, unshuffled.
pub fn standard_deck() -> (deck: [Card; DECK_SIZE])
    ensures
        forall|i: int| 0 <= i < 52 ==> #[trigger] deck@[i] == deck_card(i),
        deck@ == deck_seq(),
{
    let mut deck = [Card { rank: Rank::Two, suit: Suit::Clubs }; DECK_SIZE];
    let mut index: usize = 0;
    let mut s: usize = 0;
    while s < 4
        invariant
            s <= 4,
            index == s * 13,
            forall|i: int| 0 <= i < index ==> #[trigger] deck@[i] == deck_card(i),
        decreases 4 - s,
    {
        let suit = Suit::ALL[s];
        let mut r: usize = 0;
        while r < 13
            invariant
                s < 4,
                r <= 13,
                index == s * 13 + r,
                suit == Suit::nth(s as int),
                forall|i: int| 0 <= i < index ==> #[trigger] deck@[i] == deck_card(i),
            decreases 13 - r,
        {
            let rank = Rank::ALL[r];
            assert(rank == Rank::nth(r as int));
            deck[index] = Card { rank, suit };
            assert(index as int % 13 == r as int && index as int / 13 == s as int);
            index += 1;
            r += 1;
        }
        s += 1;
    }
    assert(deck@ =~= deck_seq());
    deck
}

/// A fresh deck in random order.
pub(crate) fn shuffled_deck(rng: &mut StdRng) -> (deck: Vec<Card>)
    ensures
        deck@.len() == 52,
        deck@.to_multiset() == deck_seq().to_multiset(),
{
    let ordered = standard_deck();
    let mut deck: Vec<Card> = Vec::new();
    let mut i: usize = 0;
    while i < DECK_SIZE
        invariant
            i <= 52,
            ordered@ == deck_seq(),
            deck@ == deck_seq().subrange(0, i as int),
        decreases 52 - i,
    {
        deck.push(ordered[i]);
        i += 1;
        assert(deck@ =~= deck_seq().subrange(0, i as int));
    }
    assert(deck@ =~= deck_seq());
    shuffle_cards(rng, &mut deck);
    deck
}

} // verus!
