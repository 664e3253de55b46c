use std::collections::HashSet;

use casino_backend::games::blackjack::{
    is_blackjack, publish, total, ActError, Action, Outcome, Phase, PlayerHand, Settlement, Table,
};
use casino_backend::games::cards::{Card, Rank, Suit, DECK_SIZE};
use rand::rngs::StdRng;
use rand::SeedableRng;

fn card(rank: Rank, suit: Suit) -> Card {
    Card { rank, suit }
}

fn table_with(player: Vec<Card>, dealer: Vec<Card>) -> Table {
    Table {
        hands: vec![PlayerHand::fresh(player)],
        active: 0,
        dealer,
        remaining: vec![
            card(Rank::Two, Suit::Clubs),
            card(Rank::Three, Suit::Clubs),
            card(Rank::Four, Suit::Clubs),
            card(Rank::Five, Suit::Clubs),
            card(Rank::Six, Suit::Clubs),
            card(Rank::Nine, Suit::Hearts),
        ],
        bet: 10,
    }
}

fn first_outcome(result: Option<Settlement>) -> Option<Outcome> {
    result.map(|done| done.hands[0].outcome)
}

#[test]
fn totals_treat_aces_as_one_or_eleven() {
    assert_eq!(
        total(&[card(Rank::Ace, Suit::Spades), card(Rank::Ten, Suit::Hearts)]).best,
        21
    );
    assert_eq!(
        total(&[
            card(Rank::Ace, Suit::Spades),
            card(Rank::Nine, Suit::Hearts),
            card(Rank::Two, Suit::Clubs)
        ])
        .best,
        12
    );
    assert_eq!(
        total(&[card(Rank::Ace, Suit::Spades), card(Rank::Ace, Suit::Hearts)]).best,
        12
    );
    assert!(total(&[card(Rank::Ace, Suit::Spades), card(Rank::Six, Suit::Hearts)]).soft);
    assert!(
        !total(&[
            card(Rank::Ace, Suit::Spades),
            card(Rank::Six, Suit::Hearts),
            card(Rank::Ten, Suit::Clubs)
        ])
        .soft
    );
    assert!(
        total(&[
            card(Rank::King, Suit::Spades),
            card(Rank::Six, Suit::Hearts),
            card(Rank::Six, Suit::Clubs)
        ])
        .bust()
    );
}

#[test]
fn two_card_twenty_one_is_blackjack() {
    assert!(is_blackjack(&[
        card(Rank::Ace, Suit::Spades),
        card(Rank::Queen, Suit::Hearts)
    ]));
    assert!(!is_blackjack(&[
        card(Rank::Ace, Suit::Spades),
        card(Rank::Five, Suit::Hearts),
        card(Rank::Five, Suit::Clubs)
    ]));
}

#[test]
fn opening_settles_naturals() {
    let both = table_with(
        vec![
            card(Rank::Ace, Suit::Spades),
            card(Rank::King, Suit::Hearts),
        ],
        vec![
            card(Rank::Ace, Suit::Clubs),
            card(Rank::Queen, Suit::Diamonds),
        ],
    );
    assert_eq!(both.opening(), Some(Outcome::Push));

    let player = table_with(
        vec![
            card(Rank::Ace, Suit::Spades),
            card(Rank::King, Suit::Hearts),
        ],
        vec![
            card(Rank::Nine, Suit::Clubs),
            card(Rank::Queen, Suit::Diamonds),
        ],
    );
    assert_eq!(player.opening(), Some(Outcome::PlayerBlackjack));

    let dealer = table_with(
        vec![
            card(Rank::Ten, Suit::Spades),
            card(Rank::Nine, Suit::Hearts),
        ],
        vec![
            card(Rank::Ace, Suit::Clubs),
            card(Rank::Queen, Suit::Diamonds),
        ],
    );
    assert_eq!(dealer.opening(), Some(Outcome::DealerBlackjack));
}

#[test]
fn dealer_does_not_peek_without_an_ace_or_ten_up() {
    let table = table_with(
        vec![
            card(Rank::Ten, Suit::Spades),
            card(Rank::Nine, Suit::Hearts),
        ],
        vec![
            card(Rank::Nine, Suit::Clubs),
            card(Rank::Ace, Suit::Diamonds),
        ],
    );
    assert_eq!(table.opening(), None);
}

#[test]
fn dealer_hits_soft_seventeen() {
    let mut table = table_with(
        vec![
            card(Rank::Ten, Suit::Spades),
            card(Rank::Eight, Suit::Hearts),
        ],
        vec![
            card(Rank::Ace, Suit::Clubs),
            card(Rank::Six, Suit::Diamonds),
        ],
    );
    table.remaining.insert(0, card(Rank::Two, Suit::Hearts));
    table.act(Action::Stand).expect("stand is legal");
    assert!(table.dealer.len() > 2);
}

#[test]
fn dealer_stands_on_hard_seventeen() {
    let mut table = table_with(
        vec![
            card(Rank::Ten, Suit::Spades),
            card(Rank::Eight, Suit::Hearts),
        ],
        vec![
            card(Rank::Ten, Suit::Clubs),
            card(Rank::Seven, Suit::Diamonds),
        ],
    );
    table.act(Action::Stand).expect("stand is legal");
    assert_eq!(table.dealer.len(), 2);
}

#[test]
fn hit_busts_a_twenty() {
    let mut table = table_with(
        vec![
            card(Rank::Ten, Suit::Spades),
            card(Rank::Queen, Suit::Hearts),
        ],
        vec![
            card(Rank::Nine, Suit::Clubs),
            card(Rank::Seven, Suit::Diamonds),
        ],
    );
    table.remaining.insert(0, card(Rank::King, Suit::Clubs));
    let outcome = first_outcome(table.act(Action::Hit).expect("hit is legal"));
    assert_eq!(outcome, Some(Outcome::PlayerBust));
}

#[test]
fn double_draws_one_then_stands() {
    let mut table = table_with(
        vec![
            card(Rank::Five, Suit::Spades),
            card(Rank::Six, Suit::Hearts),
        ],
        vec![
            card(Rank::Ten, Suit::Clubs),
            card(Rank::Six, Suit::Diamonds),
        ],
    );
    table.remaining.insert(0, card(Rank::Ten, Suit::Hearts));
    let outcome = first_outcome(table.act(Action::Double).expect("double is legal"));
    assert!(table.hands[0].doubled);
    assert_eq!(table.hands[0].cards.len(), 3);
    assert_eq!(outcome, Some(Outcome::PlayerWin));
    assert_eq!(table.stake(), 20);
}

#[test]
fn refuses_a_second_double_or_a_hit_after_twenty_one() {
    let mut table = table_with(
        vec![
            card(Rank::Ten, Suit::Spades),
            card(Rank::Queen, Suit::Hearts),
        ],
        vec![
            card(Rank::Nine, Suit::Clubs),
            card(Rank::Seven, Suit::Diamonds),
        ],
    );
    table.hands[0].cards.push(card(Rank::Ace, Suit::Clubs));
    assert_eq!(table.act(Action::Hit), Err(ActError::Illegal));
    assert_eq!(table.act(Action::Double), Err(ActError::Illegal));
}

#[test]
fn splits_a_pair_and_plays_each_hand() {
    let mut table = table_with(
        vec![
            card(Rank::Eight, Suit::Spades),
            card(Rank::Eight, Suit::Hearts),
        ],
        vec![
            card(Rank::Ten, Suit::Clubs),
            card(Rank::Six, Suit::Diamonds),
        ],
    );
    table.remaining.insert(0, card(Rank::Three, Suit::Hearts));
    table.remaining.insert(1, card(Rank::Two, Suit::Hearts));
    table.remaining.insert(2, card(Rank::Ten, Suit::Hearts));

    assert!(table.can_split());
    let mid = table.act(Action::Split).expect("split is legal");
    assert!(mid.is_none());
    assert_eq!(table.hands.len(), 2);
    assert_eq!(table.active, 0);
    assert_eq!(table.stake(), 20);
    assert_eq!(table.hands[0].cards[0].rank, Rank::Eight);
    assert_eq!(table.hands[1].cards[0].rank, Rank::Eight);
    assert!(!table.can_split());

    let still = table.act(Action::Stand).expect("stand hand 1");
    assert!(still.is_none());
    assert_eq!(table.active, 1);

    assert!(table.act(Action::Hit).expect("hit hand 2").is_none());
    assert_eq!(table.hands[1].cards.len(), 3);
    let done = table.act(Action::Stand).expect("stand hand 2");
    assert!(done.is_some());
    assert!(table.dealer.len() >= 2);
}

#[test]
fn refuses_a_split_of_unequal_ranks() {
    let table = table_with(
        vec![
            card(Rank::Ten, Suit::Spades),
            card(Rank::Jack, Suit::Hearts),
        ],
        vec![
            card(Rank::Nine, Suit::Clubs),
            card(Rank::Seven, Suit::Diamonds),
        ],
    );
    assert!(!table.can_split());
}

#[test]
fn split_aces_take_one_card_and_settle() {
    let mut table = table_with(
        vec![
            card(Rank::Ace, Suit::Spades),
            card(Rank::Ace, Suit::Hearts),
        ],
        vec![
            card(Rank::Ten, Suit::Clubs),
            card(Rank::Six, Suit::Diamonds),
        ],
    );
    table.remaining.insert(0, card(Rank::Nine, Suit::Hearts));
    table.remaining.insert(1, card(Rank::Eight, Suit::Clubs));

    let done = table.act(Action::Split).expect("split aces");
    let settlement = done.expect("split aces finish immediately");
    assert_eq!(table.hands.len(), 2);
    assert_eq!(table.hands[0].cards.len(), 2);
    assert_eq!(table.hands[1].cards.len(), 2);
    assert!(table.hands.iter().all(|hand| hand.split_aces));
    assert_eq!(table.act(Action::Hit), Err(ActError::Illegal));
    assert_eq!(settlement.hands[0].outcome, Outcome::PlayerWin);
    assert_eq!(settlement.hands[1].outcome, Outcome::PlayerWin);
    assert_ne!(settlement.hands[0].outcome, Outcome::PlayerBlackjack);
}

#[test]
fn twenty_one_after_a_split_is_not_blackjack() {
    let mut table = table_with(
        vec![
            card(Rank::Ten, Suit::Spades),
            card(Rank::Ten, Suit::Hearts),
        ],
        vec![
            card(Rank::Nine, Suit::Clubs),
            card(Rank::Seven, Suit::Diamonds),
        ],
    );
    table.remaining.insert(0, card(Rank::Ace, Suit::Clubs));
    table.remaining.insert(1, card(Rank::Ace, Suit::Diamonds));

    let done = table.act(Action::Split).expect("split tens");
    let settlement = done.expect("both hands are 21");
    assert_eq!(settlement.hands[0].outcome, Outcome::PlayerWin);
    assert_eq!(settlement.hands[1].outcome, Outcome::PlayerWin);
    assert_eq!(settlement.payout(), 40);
}

#[test]
fn busting_the_first_split_hand_plays_the_second() {
    let mut table = table_with(
        vec![
            card(Rank::Eight, Suit::Spades),
            card(Rank::Eight, Suit::Hearts),
        ],
        vec![
            card(Rank::Ten, Suit::Clubs),
            card(Rank::Nine, Suit::Diamonds),
        ],
    );
    table.remaining.insert(0, card(Rank::Six, Suit::Hearts));
    table.remaining.insert(1, card(Rank::Two, Suit::Clubs));
    table.remaining.insert(2, card(Rank::King, Suit::Hearts));

    assert!(table.act(Action::Split).expect("split").is_none());
    let mid = table.act(Action::Hit).expect("bust hand 1");
    assert!(mid.is_none());
    assert_eq!(table.active, 1);
    assert!(total(&table.hands[0].cards).bust());

    let done = table.act(Action::Stand).expect("stand hand 2");
    let settlement = done.expect("table finished");
    assert_eq!(settlement.hands[0].outcome, Outcome::PlayerBust);
    assert_eq!(settlement.hands[1].outcome, Outcome::DealerWin);
    assert_eq!(table.dealer.len(), 2);
}

#[test]
fn double_after_split_then_plays_the_other_hand() {
    let mut table = table_with(
        vec![
            card(Rank::Five, Suit::Spades),
            card(Rank::Five, Suit::Hearts),
        ],
        vec![
            card(Rank::Ten, Suit::Clubs),
            card(Rank::Six, Suit::Diamonds),
        ],
    );
    table.remaining.insert(0, card(Rank::Six, Suit::Clubs));
    table.remaining.insert(1, card(Rank::Four, Suit::Clubs));
    table.remaining.insert(2, card(Rank::Ten, Suit::Hearts));

    assert!(table.act(Action::Split).expect("split").is_none());
    assert!(table.can_double());
    let mid = table.act(Action::Double).expect("DAS");
    assert!(mid.is_none());
    assert!(table.hands[0].doubled);
    assert_eq!(table.active, 1);
    assert_eq!(table.stake(), 30);

    let done = table.act(Action::Stand).expect("stand hand 2");
    assert!(done.is_some());
    assert!(table.hands[0].cards.len() == 3);
}

#[test]
fn dealer_does_not_draw_when_every_split_hand_busts() {
    let mut table = table_with(
        vec![
            card(Rank::Eight, Suit::Spades),
            card(Rank::Eight, Suit::Hearts),
        ],
        vec![
            card(Rank::Five, Suit::Clubs),
            card(Rank::Five, Suit::Diamonds),
        ],
    );
    table.remaining.insert(0, card(Rank::Six, Suit::Hearts));
    table.remaining.insert(1, card(Rank::Six, Suit::Clubs));
    table.remaining.insert(2, card(Rank::King, Suit::Hearts));
    table.remaining.insert(3, card(Rank::King, Suit::Clubs));

    assert!(table.act(Action::Split).expect("split").is_none());
    assert!(table.act(Action::Hit).expect("bust 1").is_none());
    let done = table.act(Action::Hit).expect("bust 2");
    let settlement = done.expect("both bust");
    assert!(settlement.hands.iter().all(|hand| hand.outcome == Outcome::PlayerBust));
    assert_eq!(table.dealer.len(), 2);
}

#[test]
fn pays_three_to_two_and_rounds_odd_stakes_down() {
    assert_eq!(Outcome::PlayerBlackjack.payout(10), 25);
    assert_eq!(Outcome::PlayerBlackjack.payout(5), 12);
    assert_eq!(Outcome::PlayerWin.payout(10), 20);
    assert_eq!(Outcome::Push.payout(10), 10);
    assert_eq!(Outcome::PlayerBust.payout(10), 0);
}

#[test]
fn hole_card_stays_hidden_until_settlement() {
    let table = table_with(
        vec![
            card(Rank::Ten, Suit::Spades),
            card(Rank::Nine, Suit::Hearts),
        ],
        vec![
            card(Rank::Seven, Suit::Clubs),
            card(Rank::Queen, Suit::Diamonds),
        ],
    );
    let live = publish(&table, None, true);
    assert_eq!(live.dealer.len(), 1);
    assert_eq!(live.dealer[0], table.dealer[0]);
    assert!(live.dealer_total.is_none());
    assert_eq!(live.phase, Phase::Player);
    assert_eq!(live.hands.len(), 1);
    assert!(!live.can_split);

    let done = publish(
        &table,
        Some(&Settlement::single(Outcome::PlayerWin, 10)),
        false,
    );
    assert_eq!(done.dealer.len(), 2);
    assert_eq!(done.dealer_total, Some(17));
    assert_eq!(done.phase, Phase::Settled);
}

#[test]
fn a_deal_is_four_cards_from_a_full_unique_deck() {
    let mut rng = StdRng::seed_from_u64(0xB1A6);
    let table = Table::deal(&mut rng, 10);

    assert_eq!(table.hands[0].cards.len(), 2);
    assert_eq!(table.dealer.len(), 2);
    assert_eq!(table.remaining.len(), DECK_SIZE - 4);

    let mut seen = HashSet::new();
    for card in table.hands[0]
        .cards
        .iter()
        .chain(table.dealer.iter())
        .chain(table.remaining.iter())
    {
        assert!(seen.insert(*card), "dealt a duplicate {card:?}");
    }
    assert_eq!(seen.len(), DECK_SIZE);
}

#[test]
fn standing_on_seventeen_does_not_break_the_bank() {
    let mut rng = StdRng::seed_from_u64(0x17);
    let hands = 40_000;
    let bet = 10i64;
    let mut returned = 0i64;

    for _ in 0..hands {
        let mut table = Table::deal(&mut rng, bet);
        if let Some(outcome) = table.opening() {
            returned += outcome.payout(table.stake());
            continue;
        }

        while total(&table.hands[0].cards).best < 17 {
            table.hit();
            if total(&table.hands[0].cards).bust() {
                break;
            }
        }

        let outcome = if total(&table.hands[0].cards).bust() {
            Outcome::PlayerBust
        } else {
            table
                .act(Action::Stand)
                .expect("stand")
                .expect("finished")
                .hands[0]
                .outcome
        };
        returned += outcome.payout(table.stake());
    }

    let sampled = returned as f64 / (hands as f64 * bet as f64);
    assert!(
        (0.85..1.05).contains(&sampled),
        "sampled RTP {sampled} drifted out of a playable band"
    );
}
