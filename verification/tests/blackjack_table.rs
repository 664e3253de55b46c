use std::collections::HashSet;

use casino_backend::error::ApiError;
use casino_backend::games::blackjack::{
    can_publish, is_legacy_player, restore_player, Action, HandResult, Outcome, PlayerHand, Settlement, Table,
};
use casino_backend::games::cards::{Card, Rank, Suit, DECK_SIZE};
use casino_backend::routes::blackjack::{ActRequest, DealRequest};
use rand::rngs::StdRng;
use rand::SeedableRng;

fn card(rank: Rank, suit: Suit) -> Card {
    Card { rank, suit }
}

fn table_of(player: Vec<Card>, dealer: Vec<Card>, stock: Vec<Card>) -> Table {
    Table {
        hands: vec![PlayerHand::fresh(player)],
        active: 0,
        dealer,
        remaining: stock,
        bet: 10,
    }
}

fn eleven_against_sixteen() -> Table {
    table_of(
        vec![card(Rank::Five, Suit::Spades), card(Rank::Six, Suit::Hearts)],
        vec![card(Rank::Ten, Suit::Clubs), card(Rank::Six, Suit::Diamonds)],
        vec![
            card(Rank::Ten, Suit::Hearts),
            card(Rank::Two, Suit::Clubs),
            card(Rank::Three, Suit::Clubs),
        ],
    )
}

fn every_card(table: &Table) -> Vec<Card> {
    let mut cards: Vec<Card> = Vec::new();
    for hand in &table.hands {
        cards.extend(hand.cards.iter().copied());
    }
    cards.extend(table.dealer.iter().copied());
    cards.extend(table.remaining.iter().copied());
    cards
}

#[test]
fn a_double_the_balance_cannot_cover_is_refused_untouched() {
    let mut table = eleven_against_sixteen();
    let refused = ActRequest { action: Action::Double }.apply(&mut table, 9);
    assert_eq!(refused, Err(ApiError::InsufficientFunds));
    assert_eq!(table.hands[0].cards.len(), 2);
    assert_eq!(table.remaining.len(), 3);
}

#[test]
fn a_double_stakes_exactly_one_more_bet() {
    let mut table = eleven_against_sixteen();
    let (extra, settlement) = ActRequest { action: Action::Double }
        .apply(&mut table, 10)
        .expect("double is affordable and legal");
    assert_eq!(extra, 10);
    assert_eq!(table.stake(), 20);
    let settlement = settlement.expect("a double finishes the only hand");
    assert_eq!(settlement.hands[0].outcome, Outcome::PlayerWin);
    assert_eq!(settlement.payout(), 40);
}

#[test]
fn a_hit_stakes_nothing_more() {
    let mut table = eleven_against_sixteen();
    let (extra, settlement) = ActRequest { action: Action::Hit }
        .apply(&mut table, 0)
        .expect("hit is legal and free");
    assert_eq!(extra, 0);
    assert!(settlement.is_some(), "twenty-one ends the hand");
    assert_eq!(table.stake(), 10);
}

#[test]
fn an_action_that_does_not_fit_the_hand_is_a_bad_request() {
    let mut table = eleven_against_sixteen();
    let refused = ActRequest { action: Action::Split }.apply(&mut table, 100);
    assert_eq!(
        refused,
        Err(ApiError::BadRequest("that action is not legal on this hand".to_string()))
    );
    assert_eq!(table.hands.len(), 1);
}

#[test]
fn a_deal_outside_the_table_limits_is_refused() {
    let mut rng = StdRng::seed_from_u64(3);
    for bet in [0, -5, 501] {
        let refused = DealRequest { bet }.open_table(&mut rng);
        assert_eq!(
            refused.err(),
            Some(ApiError::BadRequest("bet must be between 1 and 500 coins".to_string()))
        );
    }
}

#[test]
fn a_deal_opens_a_table_at_the_bet() {
    let mut rng = StdRng::seed_from_u64(0xB1A6);
    let (table, settlement) = DealRequest { bet: 25 }.open_table(&mut rng).expect("25 is a legal bet");
    assert_eq!(table.bet, 25);
    assert_eq!(table.hands.len(), 1);
    assert_eq!(table.remaining.len(), DECK_SIZE - 4);
    match (table.opening(), settlement) {
        (Some(outcome), Some(settled)) => {
            assert_eq!(settled.hands.len(), 1);
            assert_eq!(settled.hands[0].outcome, outcome);
            assert_eq!(settled.hands[0].stake, 25);
        }
        (None, None) => {}
        other => panic!("opening and settlement disagree: {other:?}"),
    }
}

#[test]
fn playing_a_hand_neither_creates_nor_destroys_cards() {
    let mut rng = StdRng::seed_from_u64(0x5EED);
    for _ in 0..50 {
        let mut table = Table::deal(&mut rng, 10);
        if table.opening().is_none() {
            table.act(Action::Stand).expect("stand is legal on a fresh hand");
        }
        let cards = every_card(&table);
        assert_eq!(cards.len(), DECK_SIZE);
        let distinct: HashSet<Card> = cards.into_iter().collect();
        assert_eq!(distinct.len(), DECK_SIZE);
    }
}

#[test]
fn a_stored_table_comes_back_with_its_active_hand() {
    let mut table = table_of(
        vec![card(Rank::Eight, Suit::Spades), card(Rank::Eight, Suit::Hearts)],
        vec![card(Rank::Ten, Suit::Clubs), card(Rank::Six, Suit::Diamonds)],
        vec![
            card(Rank::Three, Suit::Hearts),
            card(Rank::Two, Suit::Hearts),
            card(Rank::Ten, Suit::Hearts),
        ],
    );
    table.act(Action::Split).expect("split is legal");
    table.act(Action::Stand).expect("stand the first hand");
    let (hands, active) = restore_player(table.stored_player());
    assert_eq!(hands, table.hands);
    assert_eq!(active, 1);
}

#[test]
fn the_stock_must_cover_an_action_and_the_dealer() {
    let mut table = eleven_against_sixteen();
    assert!(table.stock_lasts(Action::Hit));
    assert!(table.stock_lasts(Action::Double));
    assert!(table.stock_lasts(Action::Split), "a refused split needs no cards");

    table.remaining.clear();
    assert!(!table.stock_lasts(Action::Hit));
    assert!(!table.stock_lasts(Action::Stand), "the dealer must draw to sixteen");

    let mut standing = table_of(
        vec![card(Rank::Ten, Suit::Spades), card(Rank::Nine, Suit::Hearts)],
        vec![card(Rank::Ten, Suit::Clubs), card(Rank::Seven, Suit::Diamonds)],
        Vec::new(),
    );
    assert!(standing.stock_lasts(Action::Stand), "the dealer stands on seventeen");
    standing.act(Action::Stand).expect("stand is legal");
    assert_eq!(standing.dealer.len(), 2);
}

#[test]
fn only_tables_whose_figures_fit_are_published() {
    let table = eleven_against_sixteen();
    assert!(can_publish(&table, None));
    let settled = Settlement::single(Outcome::PlayerWin, 10);
    assert!(can_publish(&table, Some(&settled)));

    let huge = HandResult { outcome: Outcome::PlayerWin, stake: i64::MAX / 2 };
    let overflowing = Settlement { hands: vec![huge, huge] };
    assert!(!can_publish(&table, Some(&overflowing)), "two such payouts do not add up in an i64");

    let mut no_dealer = eleven_against_sixteen();
    no_dealer.dealer.clear();
    assert!(!can_publish(&no_dealer, None));
}

#[test]
fn an_unaffordable_split_is_refused_whatever_the_table_holds() {
    let mut damaged = table_of(
        vec![card(Rank::Eight, Suit::Spades), card(Rank::Eight, Suit::Hearts)],
        Vec::new(),
        Vec::new(),
    );
    assert_eq!(
        ActRequest { action: Action::Split }.apply(&mut damaged, 5),
        Err(ApiError::InsufficientFunds)
    );
    assert_eq!(damaged.hands[0].cards.len(), 2);
}

#[test]
fn a_player_column_is_told_apart_by_its_opening_bracket() {
    assert!(is_legacy_player(r#"  [{"rank":"ace","suit":"spades"}]"#));
    assert!(!is_legacy_player(r#"{"hands":[],"active":0}"#));
    assert!(!is_legacy_player("   "));
}

#[test]
fn a_deal_uses_each_card_of_one_deck_once() {
    let mut rng = StdRng::seed_from_u64(77);
    let (table, _) = DealRequest { bet: 10 }.open_table(&mut rng).expect("10 is a legal bet");
    let cards = every_card(&table);
    let distinct: HashSet<Card> = cards.iter().copied().collect();
    assert_eq!(cards.len(), DECK_SIZE);
    assert_eq!(distinct.len(), DECK_SIZE);
}

#[test]
fn a_split_table_plays_on_without_a_dealer_up_card() {
    let split_hand = |cards: Vec<Card>| PlayerHand { cards, doubled: false, from_split: true, split_aces: false };
    let mut table = Table {
        hands: vec![
            split_hand(vec![card(Rank::Eight, Suit::Spades), card(Rank::Ten, Suit::Hearts)]),
            split_hand(vec![card(Rank::Eight, Suit::Clubs), card(Rank::Nine, Suit::Hearts)]),
        ],
        active: 0,
        dealer: Vec::new(),
        remaining: vec![card(Rank::Ten, Suit::Diamonds), card(Rank::Seven, Suit::Diamonds)],
        bet: 10,
    };
    assert!(table.stock_lasts(Action::Stand));
    assert!(matches!(table.act(Action::Stand), Ok(None)));
    assert_eq!(table.active, 1);
    let settlement = table.act(Action::Stand).expect("stand is legal").expect("the table is over");
    assert_eq!(settlement.hands.len(), 2);
    assert_eq!(settlement.hands[0].outcome, Outcome::PlayerWin);
    assert_eq!(settlement.hands[1].outcome, Outcome::Push);
    assert_eq!(table.dealer, vec![card(Rank::Ten, Suit::Diamonds), card(Rank::Seven, Suit::Diamonds)]);
}
