use casino_backend::games::bank::{offers, quote, INTEREST_BPS, OFFERS};
use casino_backend::routes::bank::BorrowRequest;
use casino_backend::error::ApiError;

#[test]
fn every_offer_divides_the_rate_evenly() {
    for principal in OFFERS {
        let interest = principal * INTEREST_BPS;
        assert_eq!(
            interest % 10_000,
            0,
            "{principal} does not produce a whole-coin interest charge"
        );
    }
}

#[test]
fn quotes_only_the_posted_amounts() {
    assert!(quote(100).is_none());
    assert!(quote(499).is_none());
    assert!(quote(0).is_none());
    assert!(quote(-500).is_none());

    let five = quote(500).expect("500 is on the board");
    assert_eq!(five.principal, 500);
    assert_eq!(five.interest, 100);
    assert_eq!(five.repay, 600);
}

#[test]
fn twenty_percent_on_every_offer() {
    for offer in offers() {
        assert_eq!(offer.interest, offer.principal / 5);
        assert_eq!(offer.repay, offer.principal + offer.interest);
    }
}

#[test]
fn the_board_is_the_full_offer_list() {
    let principals: Vec<i64> = offers().iter().map(|offer| offer.principal).collect();
    assert_eq!(principals, OFFERS);
}

#[test]
fn the_largest_marker_costs_three_thousand() {
    let offer = quote(2_500).expect("2500 is on the board");
    assert_eq!(offer.interest, 500);
    assert_eq!(offer.repay, 3_000);
}

#[test]
fn borrowing_writes_the_posted_terms() {
    let loan = BorrowRequest { amount: 1_000 }.loan_record(7).expect("1000 is on the board");
    assert_eq!(loan.user_id, 7);
    assert_eq!(loan.principal, 1_000);
    assert_eq!(loan.interest, 200);
}

#[test]
fn borrowing_an_unposted_amount_is_refused() {
    let refused = BorrowRequest { amount: 750 }.loan_record(7);
    assert_eq!(
        refused,
        Err(ApiError::BadRequest("the bank does not offer a loan of that size".to_string()))
    );
}
