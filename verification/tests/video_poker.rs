use std::collections::{HashMap, HashSet};

use casino_backend::games::cards::{standard_deck, Card, Rank, Suit, DECK_SIZE};
use casino_backend::games::video_poker::{deal, draw, evaluate, payout, Hand, HandKind, Outcome, HAND_SIZE};
use rand::rngs::StdRng;
use rand::SeedableRng;

fn card(rank: Rank, suit: Suit) -> Card {
    Card { rank, suit }
}

fn hand(cards: [(Rank, Suit); 5]) -> Hand {
    cards.map(|(rank, suit)| card(rank, suit))
}

fn kind_of(cards: [(Rank, Suit); 5]) -> HandKind {
    evaluate(hand(cards)).kind
}

#[test]
fn rarer_hands_pay_more() {
    let table = HandKind::PAYTABLE;
    for pair in table.windows(2) {
        assert!(
            pair[0].multiplier() > pair[1].multiplier(),
            "{} should pay more than {}",
            pair[0].label(),
            pair[1].label()
        );
    }
}

#[test]
fn classifies_the_paid_hands() {
    assert_eq!(
        kind_of([
            (Rank::Ace, Suit::Spades),
            (Rank::King, Suit::Spades),
            (Rank::Queen, Suit::Spades),
            (Rank::Jack, Suit::Spades),
            (Rank::Ten, Suit::Spades)
        ]),
        HandKind::RoyalFlush
    );
    assert_eq!(
        kind_of([
            (Rank::Nine, Suit::Hearts),
            (Rank::Eight, Suit::Hearts),
            (Rank::Seven, Suit::Hearts),
            (Rank::Six, Suit::Hearts),
            (Rank::Five, Suit::Hearts)
        ]),
        HandKind::StraightFlush
    );
    // The steel wheel is a straight flush, not a royal.
    assert_eq!(
        kind_of([
            (Rank::Ace, Suit::Clubs),
            (Rank::Two, Suit::Clubs),
            (Rank::Three, Suit::Clubs),
            (Rank::Four, Suit::Clubs),
            (Rank::Five, Suit::Clubs)
        ]),
        HandKind::StraightFlush
    );
    assert_eq!(
        kind_of([
            (Rank::Jack, Suit::Clubs),
            (Rank::Jack, Suit::Diamonds),
            (Rank::Jack, Suit::Hearts),
            (Rank::Jack, Suit::Spades),
            (Rank::Three, Suit::Clubs)
        ]),
        HandKind::FourOfAKind
    );
    assert_eq!(
        kind_of([
            (Rank::King, Suit::Clubs),
            (Rank::King, Suit::Diamonds),
            (Rank::King, Suit::Hearts),
            (Rank::Nine, Suit::Clubs),
            (Rank::Nine, Suit::Spades)
        ]),
        HandKind::FullHouse
    );
    assert_eq!(
        kind_of([
            (Rank::Two, Suit::Spades),
            (Rank::Five, Suit::Spades),
            (Rank::Nine, Suit::Spades),
            (Rank::Jack, Suit::Spades),
            (Rank::King, Suit::Spades)
        ]),
        HandKind::Flush
    );
    assert_eq!(
        kind_of([
            (Rank::Ten, Suit::Clubs),
            (Rank::Jack, Suit::Diamonds),
            (Rank::Queen, Suit::Hearts),
            (Rank::King, Suit::Spades),
            (Rank::Ace, Suit::Clubs)
        ]),
        HandKind::Straight
    );
    assert_eq!(
        kind_of([
            (Rank::Ace, Suit::Hearts),
            (Rank::Two, Suit::Clubs),
            (Rank::Three, Suit::Diamonds),
            (Rank::Four, Suit::Spades),
            (Rank::Five, Suit::Hearts)
        ]),
        HandKind::Straight
    );
    assert_eq!(
        kind_of([
            (Rank::Seven, Suit::Clubs),
            (Rank::Seven, Suit::Diamonds),
            (Rank::Seven, Suit::Hearts),
            (Rank::Two, Suit::Clubs),
            (Rank::Nine, Suit::Spades)
        ]),
        HandKind::ThreeOfAKind
    );
    assert_eq!(
        kind_of([
            (Rank::Jack, Suit::Clubs),
            (Rank::Jack, Suit::Diamonds),
            (Rank::Four, Suit::Hearts),
            (Rank::Four, Suit::Spades),
            (Rank::Ace, Suit::Clubs)
        ]),
        HandKind::TwoPair
    );
    assert_eq!(
        kind_of([
            (Rank::Jack, Suit::Clubs),
            (Rank::Jack, Suit::Diamonds),
            (Rank::Two, Suit::Hearts),
            (Rank::Five, Suit::Spades),
            (Rank::Nine, Suit::Clubs)
        ]),
        HandKind::JacksOrBetter
    );
    assert_eq!(
        kind_of([
            (Rank::Ace, Suit::Clubs),
            (Rank::Ace, Suit::Diamonds),
            (Rank::Three, Suit::Hearts),
            (Rank::Seven, Suit::Spades),
            (Rank::Nine, Suit::Clubs)
        ]),
        HandKind::JacksOrBetter
    );
}

#[test]
fn does_not_pay_a_low_pair_or_a_wraparound() {
    assert_eq!(
        kind_of([
            (Rank::Ten, Suit::Clubs),
            (Rank::Ten, Suit::Diamonds),
            (Rank::Two, Suit::Hearts),
            (Rank::Five, Suit::Spades),
            (Rank::Nine, Suit::Clubs)
        ]),
        HandKind::Nothing
    );
    // K-A-2-3-4 is not a straight.
    assert_eq!(
        kind_of([
            (Rank::King, Suit::Clubs),
            (Rank::Ace, Suit::Diamonds),
            (Rank::Two, Suit::Hearts),
            (Rank::Three, Suit::Spades),
            (Rank::Four, Suit::Clubs)
        ]),
        HandKind::Nothing
    );
    assert_eq!(
        kind_of([
            (Rank::Two, Suit::Clubs),
            (Rank::Five, Suit::Diamonds),
            (Rank::Nine, Suit::Hearts),
            (Rank::Jack, Suit::Spades),
            (Rank::King, Suit::Clubs)
        ]),
        HandKind::Nothing
    );
}

#[test]
fn video_poker_pays_a_multiple_of_the_stake() {
    let full_house = Outcome::of(HandKind::FullHouse);

    assert_eq!(payout(full_house, 10), 60);
    assert_eq!(payout(Outcome::of(HandKind::Nothing), 10), 0);
    assert_eq!(payout(Outcome::of(HandKind::RoyalFlush), 5), 4_000);
}

#[test]
fn draw_keeps_held_cards_and_replaces_the_rest() {
    let dealt = hand([
        (Rank::Ace, Suit::Spades),
        (Rank::Ace, Suit::Hearts),
        (Rank::Two, Suit::Clubs),
        (Rank::Five, Suit::Diamonds),
        (Rank::Nine, Suit::Clubs),
    ]);
    let remaining = vec![
        card(Rank::King, Suit::Clubs),
        card(Rank::King, Suit::Diamonds),
        card(Rank::Three, Suit::Hearts),
        card(Rank::Four, Suit::Spades),
        card(Rank::Six, Suit::Hearts),
    ];

    let drawn = draw(dealt, [true, true, false, false, false], &remaining);

    assert_eq!(drawn[0], dealt[0]);
    assert_eq!(drawn[1], dealt[1]);
    assert_eq!(drawn[2], remaining[0]);
    assert_eq!(drawn[3], remaining[1]);
    assert_eq!(drawn[4], remaining[2]);
    assert_eq!(evaluate(drawn).kind, HandKind::TwoPair);
}

#[test]
fn a_deal_is_five_from_a_full_unique_deck() {
    let mut rng = StdRng::seed_from_u64(0xC15A);
    let (dealt, remaining) = deal(&mut rng);

    assert_eq!(dealt.len(), HAND_SIZE);
    assert_eq!(remaining.len(), DECK_SIZE - HAND_SIZE);

    let mut seen = HashSet::new();
    for card in dealt.iter().chain(remaining.iter()) {
        assert!(seen.insert(*card), "dealt a duplicate {card:?}");
    }
    assert_eq!(seen.len(), DECK_SIZE);
}

#[test]
fn only_ever_deals_real_cards() {
    let mut rng = StdRng::seed_from_u64(7);
    let legal: HashSet<Card> = standard_deck().into_iter().collect();

    for _ in 0..200 {
        let (dealt, remaining) = deal(&mut rng);
        for card in dealt.iter().chain(remaining.iter()) {
            assert!(legal.contains(card));
        }
    }
}

/// Standard 5-card poker frequencies, with one pair split into jacks-or-
/// better versus a low pair (which pays nothing, like high card).
#[test]
fn five_card_hands_match_known_poker_counts() {
    let deck = standard_deck();
    let mut counts = HashMap::new();
    let mut total = 0u64;

    for a in 0..DECK_SIZE {
        for b in (a + 1)..DECK_SIZE {
            for c in (b + 1)..DECK_SIZE {
                for d in (c + 1)..DECK_SIZE {
                    for e in (d + 1)..DECK_SIZE {
                        let kind = evaluate([deck[a], deck[b], deck[c], deck[d], deck[e]]).kind;
                        *counts.entry(kind).or_insert(0u64) += 1;
                        total += 1;
                    }
                }
            }
        }
    }

    assert_eq!(total, 2_598_960);
    assert_eq!(counts.get(&HandKind::RoyalFlush).copied().unwrap_or(0), 4);
    assert_eq!(counts.get(&HandKind::StraightFlush).copied().unwrap_or(0), 36);
    assert_eq!(counts.get(&HandKind::FourOfAKind).copied().unwrap_or(0), 624);
    assert_eq!(counts.get(&HandKind::FullHouse).copied().unwrap_or(0), 3_744);
    assert_eq!(counts.get(&HandKind::Flush).copied().unwrap_or(0), 5_108);
    assert_eq!(counts.get(&HandKind::Straight).copied().unwrap_or(0), 10_200);
    assert_eq!(counts.get(&HandKind::ThreeOfAKind).copied().unwrap_or(0), 54_912);
    assert_eq!(counts.get(&HandKind::TwoPair).copied().unwrap_or(0), 123_552);
    // 4 of the 13 pair ranks pay (J, Q, K, A); the rest are nothing.
    assert_eq!(counts.get(&HandKind::JacksOrBetter).copied().unwrap_or(0), 337_920);
    assert_eq!(counts.get(&HandKind::Nothing).copied().unwrap_or(0), 2_062_860);
}

/// Expected value of standing pat — never drawing. A terrible strategy,
/// but it is exact (every 5-card deal, no hold tree), so a paytable edit
/// or a ranking bug moves this number.
#[test]
fn standing_pat_is_a_losing_strategy() {
    let deck = standard_deck();
    let mut returned = 0u64;
    let mut total = 0u64;

    for a in 0..DECK_SIZE {
        for b in (a + 1)..DECK_SIZE {
            for c in (b + 1)..DECK_SIZE {
                for d in (c + 1)..DECK_SIZE {
                    for e in (d + 1)..DECK_SIZE {
                        returned += evaluate([deck[a], deck[b], deck[c], deck[d], deck[e]])
                            .multiplier as u64;
                        total += 1;
                    }
                }
            }
        }
    }

    let ev = returned as f64 / total as f64;
    assert!(
        (0.330..0.332).contains(&ev),
        "stand-pat expected value drifted: {ev}"
    );
}
