//! The house bank: a short list of markers and a flat interest rate.
//!
//! Interest is charged when the loan is taken, not as it ages. The player
//! receives the principal immediately and owes principal plus interest in one
//! lump. That keeps repayment a single guarded debit, the same way a spin
//! settles, and lets the terms be stated exactly.

use vstd::prelude::*;

verus! {

/// Interest as basis points of the principal. 2_000 = 20%.
pub const INTEREST_BPS: i64 = 2_000;

/// Amounts the cashier will actually hand over. Anything else is refused so
/// the client cannot invent a product the house never offered.
pub const OFFERS: [i64; 4] = [250, 500, 1_000, 2_500];

#[derive(Debug, Clone, Copy, PartialEq, Eq, Structural)]
pub struct Offer {
    pub principal: i64,
    pub interest: i64,
    /// Principal plus interest: what clearing the marker costs.
    pub repay: i64,
}

/// The principals on the board, in posted order.
pub open spec fn posted() -> Seq<i64> {
    seq![250i64, 500i64, 1_000i64, 2_500i64]
}

/// The terms the bank writes for a posted `principal`.
pub open spec fn terms_for(principal: i64) -> Offer {
    let interest = principal * INTEREST_BPS / 10_000;
    Offer { principal, interest: interest as i64, repay: (principal + interest) as i64 }
}

/// Interest charged on `principal`, or `None` when that amount is not on the
/// board.
pub fn quote(principal: i64) -> (offer: Option<Offer>)
    ensures
        offer == (if posted().contains(principal) {
            Some(terms_for(principal))
        } else {
            None::<Offer>
        }),
{
    let mut i: usize = 0;
    let mut found = false;
    while i < OFFERS.len()
        invariant
            i <= 4,
            OFFERS@ == posted(),
            found == (exists|k: int| 0 <= k < i && posted()[k] == principal),
        decreases 4 - i,
    {
        if OFFERS[i] == principal {
            found = true;
        }
        i += 1;
    }
    proof {
        if posted().contains(principal) {
            let k = choose|k: int| 0 <= k < 4 && posted()[k] == principal;
            assert(found);
        }
    }
    if !found {
        return None;
    }
    let interest = principal * INTEREST_BPS / 10_000;
    Some(Offer { principal, interest, repay: principal + interest })
}

/// The whole board: one quote per posted principal, in posted order.
pub fn offers() -> (board: Vec<Offer>)
    ensures
        board@.len() == 4,
        forall|i: int| 0 <= i < 4 ==> #[trigger] board@[i] == terms_for(posted()[i]),
{
    let mut board: Vec<Offer> = Vec::new();
    let mut i: usize = 0;
    while i < OFFERS.len()
        invariant
            i <= 4,
            OFFERS@ == posted(),
            board@.len() == i,
            forall|k: int| 0 <= k < i ==> #[trigger] board@[k] == terms_for(posted()[k]),
        decreases 4 - i,
    {
        let principal = OFFERS[i];
        assert(posted().contains(principal)) by {
            assert(posted()[i as int] == principal);
        }
        match quote(principal) {
            Some(offer) => board.push(offer),
            None => {},
        }
        i += 1;
    }
    board
}

/// Every posted principal earns a whole-coin interest charge: twenty percent
/// of it, with nothing rounded away, and the repayment is principal plus
/// interest.
pub proof fn lemma_posted_terms_are_exact(principal: i64)
    requires
        posted().contains(principal),
    ensures
        (principal * INTEREST_BPS) % 10_000 == 0,
        terms_for(principal).interest * 5 == principal,
        terms_for(principal).repay == principal + terms_for(principal).interest,
        terms_for(principal).interest > 0,
{
    let k = choose|k: int| 0 <= k < 4 && posted()[k] == principal;
    assert(k == 0 || k == 1 || k == 2 || k == 3);
}

} // verus!
