use casino_backend::error::ApiError;
use casino_backend::games::cards::{Card, Rank, Suit};
use casino_backend::games::video_poker::{HandKind, Outcome};
use casino_backend::routes::games::{parse_hand, DealRequest, DrawRequest, DrawnHandResponse, DealtHandResponse};
use rand::rngs::StdRng;
use rand::SeedableRng;

fn card(rank: Rank, suit: Suit) -> Card {
    Card { rank, suit }
}

#[test]
fn a_draw_counts_the_cards_it_replaces() {
    assert_eq!(DrawRequest { held: [true; 5] }.discards(), 0);
    assert_eq!(DrawRequest { held: [false; 5] }.discards(), 5);
    assert_eq!(DrawRequest { held: [true, false, true, false, false] }.discards(), 3);
}

#[test]
fn a_draw_pays_the_hand_it_makes_at_the_dealt_stake() {
    let dealt = [
        card(Rank::Queen, Suit::Spades),
        card(Rank::Queen, Suit::Hearts),
        card(Rank::Two, Suit::Clubs),
        card(Rank::Five, Suit::Diamonds),
        card(Rank::Nine, Suit::Clubs),
    ];
    let stock = vec![
        card(Rank::Queen, Suit::Clubs),
        card(Rank::Seven, Suit::Diamonds),
        card(Rank::Three, Suit::Hearts),
    ];
    let request = DrawRequest { held: [true, true, false, false, false] };
    let (cards, outcome, paid) = request.resolve(dealt, &stock, 10);
    assert_eq!(cards[2], stock[0]);
    assert_eq!(cards[4], stock[2]);
    assert_eq!(outcome, Outcome::of(HandKind::ThreeOfAKind));
    assert_eq!(paid, 30);

    let response = DrawnHandResponse::settled(cards, request.held, outcome, 10, paid, 120);
    assert_eq!(response.net, 20);
    assert_eq!(response.phase, "settled");
}

#[test]
fn a_stored_hand_must_hold_five_cards() {
    let four = vec![card(Rank::Ace, Suit::Spades); 4];
    assert_eq!(
        parse_hand(four).err(),
        Some(ApiError::Internal("stored hand was not five cards".to_string()))
    );
    let five = vec![
        card(Rank::Ace, Suit::Spades),
        card(Rank::King, Suit::Spades),
        card(Rank::Queen, Suit::Spades),
        card(Rank::Jack, Suit::Spades),
        card(Rank::Ten, Suit::Spades),
    ];
    let hand = parse_hand(five.clone()).expect("five cards");
    assert_eq!(hand.to_vec(), five);
}

#[test]
fn a_video_poker_deal_outside_the_limits_is_refused() {
    let mut rng = StdRng::seed_from_u64(11);
    assert_eq!(
        DealRequest { bet: 0 }.deal(&mut rng).err(),
        Some(ApiError::BadRequest("bet must be between 1 and 500 coins".to_string()))
    );
    let (hand, stock) = DealRequest { bet: 500 }.deal(&mut rng).expect("500 is the table maximum");
    assert_eq!(hand.len() + stock.len(), 52);
    let response = DealtHandResponse::dealt(hand, 500, 40);
    assert_eq!(response.phase, "dealt");
}

#[test]
fn a_deal_comes_from_a_shuffled_deck() {
    let mut rng = StdRng::seed_from_u64(0xC15A);
    let ordered = casino_backend::games::cards::standard_deck();
    let (hand, stock) = DealRequest { bet: 1 }.deal(&mut rng).expect("1 is a legal bet");
    let mut dealt: Vec<Card> = hand.to_vec();
    dealt.extend(stock);
    assert_eq!(dealt.len(), ordered.len());
    assert_ne!(dealt, ordered, "the deck was dealt in factory order");
}
