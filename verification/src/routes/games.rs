//! The slot machine and video poker endpoints: which stakes are taken, what
//! a play produced, and what the player is shown afterwards.

use rand::rngs::StdRng;
use vstd::prelude::*;

use super::{bet_range_message, check_bet};
use crate::arith::saturate;
use crate::error::ApiError;
use crate::games::cards::{deck_seq, Card};
use crate::games::slots::{self, classify, outcome_multiplier, strip_symbol, Symbol, REELS};
use crate::games::video_poker::{self, discards_before, hand_kind, kind_multiplier, Hand, HAND_SIZE};

verus! {

pub struct SpinRequest {
    pub bet: i64,
}

pub struct SpinResponse {
    pub reels: [Symbol; REELS],
    pub outcome: slots::Outcome,
    pub bet: i64,
    /// Gross return, so a winning stake of 10 at 1x pays back 10.
    pub payout: i64,
    /// What the spin actually did to the balance.
    pub net: i64,
    pub balance: i64,
}

impl SpinRequest {
    /// Checks the stake and plays one spin: the reels, what they show, and
    /// the gross return on the stake. The result is decided here, never by
    /// the client.
    pub fn play(&self, rng: &mut StdRng) -> (played: Result<([Symbol; REELS], slots::Outcome, i64), ApiError>)
        ensures
            played is Ok <==> slots::MIN_BET <= self.bet <= slots::MAX_BET,
            played matches Err(err) ==> err matches ApiError::BadRequest(message)
                && message@ == bet_range_message(slots::MIN_BET, slots::MAX_BET),
            played matches Ok(spun) ==> {
                &&& spun.1 == classify(spun.0@[0], spun.0@[1], spun.0@[2])
                &&& spun.2 == saturate(self.bet * outcome_multiplier(spun.1))
                &&& forall|i: int|
                    0 <= i < 3 ==> exists|roll: int| 0 <= roll < 100 && #[trigger] spun.0@[i] == strip_symbol(roll)
            },
    {
        match check_bet(self.bet, slots::MIN_BET, slots::MAX_BET) {
            Err(err) => return Err(err),
            Ok(()) => {},
        }
        let reels = slots::spin(rng);
        let outcome = slots::evaluate(reels);
        let payout = slots::payout(outcome, self.bet);
        Ok((reels, outcome, payout))
    }
}

impl SpinResponse {
    /// The answer to a settled spin, with its effect on the balance.
    pub fn settled(reels: [Symbol; REELS], outcome: slots::Outcome, bet: i64, payout: i64, balance: i64) -> (response: Self)
        requires
            i64::MIN <= payout - bet <= i64::MAX,
        ensures
            response == (SpinResponse { reels, outcome, bet, payout, net: (payout - bet) as i64, balance }),
    {
        SpinResponse { reels, outcome, bet, payout, net: payout - bet, balance }
    }
}

pub struct DealRequest {
    pub bet: i64,
}

pub struct DrawRequest {
    pub held: [bool; HAND_SIZE],
}

pub struct DealtHandResponse {
    pub cards: Hand,
    pub bet: i64,
    pub balance: i64,
    pub phase: &'static str,
}

pub struct DrawnHandResponse {
    pub cards: Hand,
    pub held: [bool; HAND_SIZE],
    pub outcome: video_poker::Outcome,
    pub bet: i64,
    /// Gross return, so Jacks or better on a stake of 10 pays back 10.
    pub payout: i64,
    /// What the hand actually did to the balance.
    pub net: i64,
    pub balance: i64,
    pub phase: &'static str,
}

pub struct OpenHandView {
    pub cards: Hand,
    pub bet: i64,
}

pub struct OpenHandResponse {
    pub hand: Option<OpenHandView>,
    pub balance: i64,
}

impl DealRequest {
    /// Checks the stake and deals five cards from a fresh shuffle. The rest
    /// of the deck stays on the server as the stock for the draw.
    pub fn deal(&self, rng: &mut StdRng) -> (dealt: Result<(Hand, Vec<Card>), ApiError>)
        ensures
            dealt is Ok <==> video_poker::MIN_BET <= self.bet <= video_poker::MAX_BET,
            dealt matches Err(err) ==> err matches ApiError::BadRequest(message)
                && message@ == bet_range_message(video_poker::MIN_BET, video_poker::MAX_BET),
            dealt matches Ok(cards) ==> {
                &&& cards.1@.len() == 47
                &&& (cards.0@ + cards.1@).to_multiset() == deck_seq().to_multiset()
                &&& (cards.0@ + cards.1@).no_duplicates()
            },
    {
        match check_bet(self.bet, video_poker::MIN_BET, video_poker::MAX_BET) {
            Err(err) => return Err(err),
            Ok(()) => {},
        }
        Ok(video_poker::deal(rng))
    }
}

impl DrawRequest {
    /// How many cards the draw replaces.
    pub fn discards(&self) -> (count: usize)
        ensures
            count == discards_before(self.held@, 5),
            count <= 5,
    {
        let mut count: usize = 0;
        let mut i: usize = 0;
        while i < HAND_SIZE
            invariant
                i <= 5,
                count == discards_before(self.held@, i as int),
                count <= i,
            decreases 5 - i,
        {
            if !self.held[i] {
                count = count + 1;
            }
            i += 1;
        }
        count
    }

    /// Replaces the cards not held from the front of the stock, then pays
    /// the resulting hand at the stake it was dealt for: the final hand, how
    /// it ranks, and the gross return.
    pub fn resolve(&self, dealt: Hand, remaining: &[Card], bet: i64) -> (drawn: (Hand, video_poker::Outcome, i64))
        requires
            remaining@.len() >= discards_before(self.held@, 5),
        ensures
            forall|i: int|
                0 <= i < 5 ==> #[trigger] drawn.0@[i] == if self.held@[i] {
                    dealt@[i]
                } else {
                    remaining@[discards_before(self.held@, i)]
                },
            drawn.1.kind == hand_kind(drawn.0@),
            drawn.1.multiplier == kind_multiplier(drawn.1.kind),
            drawn.2 == saturate(bet * drawn.1.multiplier),
    {
        let cards = video_poker::draw(dealt, self.held, remaining);
        let outcome = video_poker::evaluate(cards);
        let payout = video_poker::payout(outcome, bet);
        (cards, outcome, payout)
    }
}

impl DealtHandResponse {
    pub fn dealt(cards: Hand, bet: i64, balance: i64) -> (response: Self)
        ensures
            response.cards == cards,
            response.bet == bet,
            response.balance == balance,
            response.phase@ == "dealt"@,
    {
        DealtHandResponse { cards, bet, balance, phase: "dealt" }
    }
}

impl DrawnHandResponse {
    /// The answer to a settled draw, with its effect on the balance.
    pub fn settled(
        cards: Hand,
        held: [bool; HAND_SIZE],
        outcome: video_poker::Outcome,
        bet: i64,
        payout: i64,
        balance: i64,
    ) -> (response: Self)
        requires
            i64::MIN <= payout - bet <= i64::MAX,
        ensures
            response.cards == cards,
            response.held == held,
            response.outcome == outcome,
            response.bet == bet,
            response.payout == payout,
            response.net == payout - bet,
            response.balance == balance,
            response.phase@ == "settled"@,
    {
        DrawnHandResponse { cards, held, outcome, bet, payout, net: payout - bet, balance, phase: "settled" }
    }
}

/// A stored hand back as five cards; any other count means the stored row
/// is damaged.
pub fn parse_hand(cards: Vec<Card>) -> (hand: Result<Hand, ApiError>)
    ensures
        hand is Ok <==> cards@.len() == 5,
        hand matches Ok(hand) ==> hand@ == cards@,
        hand matches Err(err) ==> err matches ApiError::Internal(message)
            && message@ == "stored hand was not five cards"@,
{
    if cards.len() != HAND_SIZE {
        return Err(ApiError::Internal(String::from_str("stored hand was not five cards")));
    }
    let hand: Hand = [cards[0], cards[1], cards[2], cards[3], cards[4]];
    assert(hand@ =~= cards@);
    Ok(hand)
}

} // verus!
