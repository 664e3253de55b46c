use casino_backend::error::ApiError;
use casino_backend::games::slots::{
    evaluate, paylines, paytable, payout, spin, symbol_for_roll, theoretical_return_ppm, Outcome, Symbol,
    TOTAL_WEIGHT,
};
use casino_backend::routes::games::{SpinRequest, SpinResponse};
use rand::rngs::StdRng;
use rand::SeedableRng;

#[test]
fn weights_sum_to_the_declared_total() {
    let sum: u32 = paylines().iter().map(|line| line.weight).sum();

    assert_eq!(sum, TOTAL_WEIGHT, "draw() relies on the weights summing exactly");
}

#[test]
fn slots_the_house_keeps_a_small_edge() {
    let rtp = theoretical_return_ppm() as f64 / 1_000_000.0;

    // Generous enough to be worth playing, still profitable for the house.
    assert!((0.90..0.97).contains(&rtp), "return to player drifted out of band: {rtp}");
}

#[test]
fn rarer_symbols_pay_more() {
    for pair in paylines().windows(2) {
        assert!(
            pair[0].weight > pair[1].weight,
            "paylines must be ordered from most to least common"
        );
        assert!(
            pair[0].three < pair[1].three,
            "a rarer symbol must pay more for three of a kind"
        );
    }
}

#[test]
fn classifies_reels() {
    assert_eq!(evaluate([Symbol::Seven, Symbol::Seven, Symbol::Seven]), Outcome::Three { symbol: Symbol::Seven, multiplier: 150 });
    assert_eq!(evaluate([Symbol::Clubs, Symbol::Clubs, Symbol::Seven]), Outcome::Pair { symbol: Symbol::Clubs, multiplier: 1 });
    // A pair split by a different symbol still counts.
    assert_eq!(evaluate([Symbol::Star, Symbol::Hearts, Symbol::Star]), Outcome::Pair { symbol: Symbol::Star, multiplier: 2 });
    assert_eq!(evaluate([Symbol::Clubs, Symbol::Hearts, Symbol::Seven]), Outcome::Nothing);
}

#[test]
fn slots_pays_a_multiple_of_the_stake() {
    let outcome = Outcome::Three { symbol: Symbol::Seven, multiplier: 150 };

    assert_eq!(payout(outcome, 10), 1_500);
    assert_eq!(payout(Outcome::Nothing, 10), 0);
}

#[test]
fn sampling_matches_the_theoretical_rtp() {
    let mut rng = StdRng::seed_from_u64(0x000C_A510);
    let spins = 400_000;
    let bet = 1;
    let mut returned = 0i64;

    for _ in 0..spins {
        returned += payout(evaluate(spin(&mut rng)), bet);
    }

    let sampled = returned as f64 / f64::from(spins);
    let expected = theoretical_return_ppm() as f64 / 1_000_000.0;

    assert!(
        (sampled - expected).abs() < 0.02,
        "sampled RTP {sampled} strayed from the expected {expected}"
    );
}

#[test]
fn only_ever_draws_known_symbols() {
    let mut rng = StdRng::seed_from_u64(7);

    for _ in 0..10_000 {
        for symbol in spin(&mut rng) {
            assert!(paylines().iter().any(|line| line.symbol == symbol));
        }
    }
}

#[test]
fn the_theoretical_return_is_exactly_951117_ppm() {
    assert_eq!(theoretical_return_ppm(), 951_117);
}

#[test]
fn a_roll_lands_on_the_strip_by_cumulative_weight() {
    let lines = paylines();
    let mut start = 0u32;
    for line in lines.iter() {
        assert_eq!(symbol_for_roll(start), line.symbol);
        assert_eq!(symbol_for_roll(start + line.weight - 1), line.symbol);
        start += line.weight;
    }
}

#[test]
fn the_paytable_lists_the_rarest_symbol_first() {
    let table = paytable();
    assert_eq!(table.len(), 6);
    assert_eq!(table[0].symbol, Symbol::Seven);
    assert_eq!(table[0].three_of_a_kind, 150);
    for pair in table.windows(2) {
        assert!(pair[0].three_of_a_kind > pair[1].three_of_a_kind);
    }
}

#[test]
fn a_huge_stake_saturates_instead_of_wrapping() {
    let outcome = Outcome::Three { symbol: Symbol::Seven, multiplier: 150 };
    assert_eq!(payout(outcome, i64::MAX), i64::MAX);
}

#[test]
fn a_spin_outside_the_limits_is_refused() {
    let mut rng = StdRng::seed_from_u64(1);
    assert_eq!(
        SpinRequest { bet: 501 }.play(&mut rng).err(),
        Some(ApiError::BadRequest("bet must be between 1 and 500 coins".to_string()))
    );
}

#[test]
fn a_spin_pays_what_its_reels_show() {
    let mut rng = StdRng::seed_from_u64(99);
    for _ in 0..200 {
        let (reels, outcome, paid) = SpinRequest { bet: 4 }.play(&mut rng).expect("4 is a legal bet");
        assert_eq!(outcome, evaluate(reels));
        assert_eq!(paid, payout(outcome, 4));
        let response = SpinResponse::settled(reels, outcome, 4, paid, 100);
        assert_eq!(response.net, paid - 4);
        assert_eq!(response.balance, 100);
    }
}
