//! Single-deck blackjack.
//!
//! A fresh 52-card shoe every hand, dealer hits soft 17, blackjack pays 3:2
//! (odd stakes round down to a whole coin). Pairs of the same rank may be
//! split once. Split aces take one card each. Double is allowed on any
//! two-card total, including after a split (except aces). No insurance, no
//! surrender, no resplit. A two-card 21 after a split pays even money, not
//! 3:2.
//!
//! The hole card and the remaining stock never leave the server. The client
//! sees each of the player's hands, the dealer's up card, and the legal
//! actions.

use rand::rngs::StdRng;
use vstd::prelude::*;

use super::blackjack_laws::{lemma_single_hand_table_cards, table_cards};
use crate::arith::{saturate, saturating_add, saturating_mul};
use crate::text::{trim_start, trimmed_start};
use super::cards::{
    deck_seq, lemma_shuffled_deck_has_no_duplicates, rank_pip, shuffled_deck, Card, Rank,
};

verus! {

/// The lowest and highest a player may stake on one hand.
pub const MIN_BET: i64 = 1;

pub const MAX_BET: i64 = 500;

/// Dealer hits a soft 17 (ace counted as 11).
pub const DEALER_HITS_SOFT_17: bool = true;

#[derive(Debug, Clone, Copy, PartialEq, Eq, Structural)]
pub enum Outcome {
    PlayerBlackjack,
    PlayerWin,
    Push,
    DealerWin,
    PlayerBust,
    DealerBlackjack,
}

/// `x / 2` rounded toward zero, as integer division does.
pub open spec fn half_toward_zero(x: int) -> int {
    if x >= 0 {
        x / 2
    } else {
        -((-x) / 2)
    }
}

/// Gross return on `stake`. A win hands the stake back plus even money; a
/// natural pays 3:2 on top of the stake, rounded down to a whole coin.
pub open spec fn outcome_payout(outcome: Outcome, stake: i64) -> i64 {
    match outcome {
        Outcome::PlayerBust | Outcome::DealerWin | Outcome::DealerBlackjack => 0,
        Outcome::Push => stake,
        Outcome::PlayerWin => saturate(stake * 2),
        Outcome::PlayerBlackjack => saturate(stake + half_toward_zero(saturate(stake * 3) as int)),
    }
}

pub open spec fn outcome_label(outcome: Outcome) -> Seq<char> {
    match outcome {
        Outcome::PlayerBlackjack => "Blackjack"@,
        Outcome::PlayerWin => "You win"@,
        Outcome::Push => "Push"@,
        Outcome::DealerWin => "Dealer wins"@,
        Outcome::PlayerBust => "Bust"@,
        Outcome::DealerBlackjack => "Dealer blackjack"@,
    }
}

impl Outcome {
    /// Gross return on `stake`. A win hands the stake back plus even money;
    /// a natural pays 3:2 on top of the stake.
    pub fn payout(self, stake: i64) -> (paid: i64)
        ensures
            paid == outcome_payout(self, stake),
    {
        match self {
            Outcome::PlayerBust | Outcome::DealerWin | Outcome::DealerBlackjack => 0,
            Outcome::Push => stake,
            Outcome::PlayerWin => saturating_mul(stake, 2),
            Outcome::PlayerBlackjack => saturating_add(stake, saturating_mul(stake, 3) / 2),
        }
    }

    pub fn label(self) -> (name: &'static str)
        ensures
            name@ == outcome_label(self),
    {
        match self {
            Outcome::PlayerBlackjack => "Blackjack",
            Outcome::PlayerWin => "You win",
            Outcome::Push => "Push",
            Outcome::DealerWin => "Dealer wins",
            Outcome::PlayerBust => "Bust",
            Outcome::DealerBlackjack => "Dealer blackjack",
        }
    }
}

#[derive(Debug, Clone, Copy, PartialEq, Eq, Structural)]
pub enum Action {
    Hit,
    Stand,
    Double,
    Split,
}

#[derive(Debug, Clone, Copy, PartialEq, Eq, Structural)]
pub enum Phase {
    Player,
    Settled,
}

#[derive(Debug, Clone, Copy, PartialEq, Eq, Structural)]
pub struct Total {
    pub best: u8,
    pub soft: bool,
}

impl Total {
    pub fn bust(self) -> (bust: bool)
        ensures
            bust == (self.best > 21),
    {
        self.best > 21
    }
}

/// Sum of blackjack pip values, every ace counted as one.
pub open spec fn pip_sum(cards: Seq<Card>) -> int
    decreases cards.len(),
{
    if cards.len() == 0 {
        0
    } else {
        pip_sum(cards.drop_last()) + rank_pip(cards.last().rank)
    }
}

pub open spec fn has_ace(cards: Seq<Card>) -> bool {
    exists|i: int| 0 <= i < cards.len() && #[trigger] cards[i].rank == Rank::Ace
}

/// Best non-busting total, counting one ace as 11 when that still fits. The
/// running sum is kept in a byte and saturates there.
pub open spec fn hand_total(cards: Seq<Card>) -> Total {
    let sum = if pip_sum(cards) > 255 {
        255
    } else {
        pip_sum(cards)
    };
    if has_ace(cards) && sum + 10 <= 21 {
        Total { best: (sum + 10) as u8, soft: true }
    } else {
        Total { best: sum as u8, soft: false }
    }
}

pub open spec fn is_bust(cards: Seq<Card>) -> bool {
    hand_total(cards).best > 21
}

/// A two-card 21.
pub open spec fn is_natural(cards: Seq<Card>) -> bool {
    cards.len() == 2 && hand_total(cards).best == 21
}

/// The dealer draws below 17, and on a soft 17.
pub open spec fn dealer_hits(cards: Seq<Card>) -> bool {
    let value = hand_total(cards);
    !(value.best > 21) && (value.best < 17 || (value.best == 17 && DEALER_HITS_SOFT_17
        && value.soft))
}

proof fn lemma_pip_sum_nonnegative(cards: Seq<Card>)
    ensures
        pip_sum(cards) >= cards.len(),
    decreases cards.len(),
{
    if cards.len() > 0 {
        lemma_pip_sum_nonnegative(cards.drop_last());
    }
}

/// Best non-busting total, counting one ace as 11 when that still fits.
pub fn total(cards: &[Card]) -> (value: Total)
    ensures
        value == hand_total(cards@),
{
    let mut sum: u8 = 0;
    let mut ace = false;
    let mut i: usize = 0;
    while i < cards.len()
        invariant
            i <= cards@.len(),
            sum == (if pip_sum(cards@.take(i as int)) > 255 {
                255
            } else {
                pip_sum(cards@.take(i as int))
            }),
            ace == has_ace(cards@.take(i as int)),
        decreases cards@.len() - i,
    {
        let card = cards[i];
        proof {
            let before = cards@.take(i as int);
            let after = cards@.take(i as int + 1);
            assert(after.drop_last() =~= before);
            assert(after.last() == card);
            lemma_pip_sum_nonnegative(before);
            if has_ace(after) {
                let k = choose|k: int| 0 <= k < after.len() && #[trigger] after[k].rank == Rank::Ace;
                if k < i {
                    assert(before[k] == after[k]);
                }
            }
            if has_ace(before) {
                let k = choose|k: int| 0 <= k < before.len() && #[trigger] before[k].rank == Rank::Ace;
                assert(after[k] == before[k]);
            }
        }
        if card.rank == Rank::Ace {
            ace = true;
        }
        sum = sum.saturating_add(card.rank.pip());
        i += 1;
    }
    assert(cards@.take(cards@.len() as int) =~= cards@);
    if ace && sum <= 11 {
        Total { best: sum + 10, soft: true }
    } else {
        Total { best: sum, soft: false }
    }
}

pub fn is_blackjack(cards: &[Card]) -> (natural: bool)
    ensures
        natural == is_natural(cards@),
{
    cards.len() == 2 && total(cards).best == 21
}

fn dealer_should_hit(cards: &[Card]) -> (hit: bool)
    ensures
        hit == dealer_hits(cards@),
{
    let value = total(cards);
    if value.bust() || value.best > 17 {
        return false;
    }
    if value.best < 17 {
        return true;
    }
    DEALER_HITS_SOFT_17 && value.soft
}


#[derive(Debug, Clone, PartialEq, Eq)]
pub struct PlayerHand {
    pub cards: Vec<Card>,
    pub doubled: bool,
    pub from_split: bool,
    pub split_aces: bool,
}

/// A player hand as plain values.
pub struct HandModel {
    pub cards: Seq<Card>,
    pub doubled: bool,
    pub from_split: bool,
    pub split_aces: bool,
}

impl View for PlayerHand {
    type V = HandModel;

    open spec fn view(&self) -> HandModel {
        HandModel {
            cards: self.cards@,
            doubled: self.doubled,
            from_split: self.from_split,
            split_aces: self.split_aces,
        }
    }
}

/// What a hand puts at risk: the bet, or twice it once doubled.
pub open spec fn hand_stake(hand: HandModel, bet: i64) -> i64 {
    if hand.doubled {
        saturate(bet * 2)
    } else {
        bet
    }
}

impl PlayerHand {
    /// A hand straight off the deal: not doubled, not split.
    pub fn fresh(cards: Vec<Card>) -> (hand: Self)
        ensures
            hand@ == (HandModel { cards: cards@, doubled: false, from_split: false, split_aces: false }),
    {
        PlayerHand { cards, doubled: false, from_split: false, split_aces: false }
    }

    pub fn stake(&self, bet: i64) -> (stake: i64)
        ensures
            stake == hand_stake(self@, bet),
    {
        if self.doubled {
            saturating_mul(bet, 2)
        } else {
            bet
        }
    }
}

#[derive(Debug, Clone, Copy, PartialEq, Eq, Structural)]
pub struct HandResult {
    pub outcome: Outcome,
    pub stake: i64,
}

pub open spec fn result_payout(result: HandResult) -> i64 {
    outcome_payout(result.outcome, result.stake)
}

impl HandResult {
    pub fn payout(&self) -> (paid: i64)
        ensures
            paid == result_payout(*self),
    {
        self.outcome.payout(self.stake)
    }
}

/// Sum of the payouts of the first `n` hand results.
pub open spec fn payout_sum(results: Seq<HandResult>, n: int) -> int
    decreases n,
{
    if n <= 0 {
        0
    } else {
        payout_sum(results, n - 1) + result_payout(results[n - 1])
    }
}

/// Sum of the stakes of the first `n` hand results.
pub open spec fn stake_sum(results: Seq<HandResult>, n: int) -> int
    decreases n,
{
    if n <= 0 {
        0
    } else {
        stake_sum(results, n - 1) + results[n - 1].stake
    }
}

/// Every running total of a sum fits in an `i64`, so adding up never overflows.
pub open spec fn running_sums_fit(sum: spec_fn(int) -> int, len: int) -> bool {
    forall|n: int| 0 <= n <= len ==> i64::MIN <= #[trigger] sum(n) <= i64::MAX
}

/// The one outcome every hand shares, if they all share one.
pub open spec fn common_outcome(results: Seq<HandResult>) -> Option<Outcome> {
    if results.len() == 0 {
        None
    } else if forall|i: int| 0 <= i < results.len() ==> #[trigger] results[i].outcome == results[0].outcome {
        Some(results[0].outcome)
    } else {
        None
    }
}

/// Every player hand, once the table is finished.
#[derive(Debug, Clone, PartialEq, Eq)]
pub struct Settlement {
    pub hands: Vec<HandResult>,
}

impl Settlement {
    pub fn single(outcome: Outcome, stake: i64) -> (settlement: Self)
        ensures
            settlement.hands@ == seq![HandResult { outcome, stake }],
    {
        let mut hands: Vec<HandResult> = Vec::new();
        hands.push(HandResult { outcome, stake });
        assert(hands@ =~= seq![HandResult { outcome, stake }]);
        Settlement { hands }
    }

    /// Everything the table pays back, across all hands.
    pub fn payout(&self) -> (paid: i64)
        requires
            running_sums_fit(|n: int| payout_sum(self.hands@, n), self.hands@.len() as int),
        ensures
            paid == payout_sum(self.hands@, self.hands@.len() as int),
    {
        let mut total: i64 = 0;
        let mut i: usize = 0;
        while i < self.hands.len()
            invariant
                i <= self.hands@.len(),
                running_sums_fit(|n: int| payout_sum(self.hands@, n), self.hands@.len() as int),
                total == payout_sum(self.hands@, i as int),
            decreases self.hands@.len() - i,
        {
            let paid = self.hands[i].payout();
            assert(i64::MIN <= payout_sum(self.hands@, i + 1) <= i64::MAX) by {
                let f = |n: int| payout_sum(self.hands@, n);
                assert(f(i + 1) == payout_sum(self.hands@, i + 1));
            }
            total = total + paid;
            i += 1;
        }
        total
    }

    /// Everything the table put at risk, across all hands.
    pub fn total_stake(&self) -> (staked: i64)
        requires
            running_sums_fit(|n: int| stake_sum(self.hands@, n), self.hands@.len() as int),
        ensures
            staked == stake_sum(self.hands@, self.hands@.len() as int),
    {
        let mut total: i64 = 0;
        let mut i: usize = 0;
        while i < self.hands.len()
            invariant
                i <= self.hands@.len(),
                running_sums_fit(|n: int| stake_sum(self.hands@, n), self.hands@.len() as int),
                total == stake_sum(self.hands@, i as int),
            decreases self.hands@.len() - i,
        {
            assert(i64::MIN <= stake_sum(self.hands@, i + 1) <= i64::MAX) by {
                let f = |n: int| stake_sum(self.hands@, n);
                assert(f(i + 1) == stake_sum(self.hands@, i + 1));
            }
            total = total + self.hands[i].stake;
            i += 1;
        }
        total
    }

    /// What the table did to the balance: payout less stake.
    pub fn net(&self) -> (net: i64)
        requires
            running_sums_fit(|n: int| payout_sum(self.hands@, n), self.hands@.len() as int),
            running_sums_fit(|n: int| stake_sum(self.hands@, n), self.hands@.len() as int),
            i64::MIN <= payout_sum(self.hands@, self.hands@.len() as int) - stake_sum(
                self.hands@,
                self.hands@.len() as int,
            ) <= i64::MAX,
        ensures
            net == payout_sum(self.hands@, self.hands@.len() as int) - stake_sum(
                self.hands@,
                self.hands@.len() as int,
            ),
    {
        self.payout() - self.total_stake()
    }

    /// The outcome of the table when every hand ended the same way.
    pub fn outcome(&self) -> (outcome: Option<Outcome>)
        ensures
            outcome == common_outcome(self.hands@),
    {
        if self.hands.len() == 0 {
            return None;
        }
        let first = self.hands[0].outcome;
        let mut i: usize = 1;
        while i < self.hands.len()
            invariant
                1 <= i <= self.hands@.len(),
                first == self.hands@[0].outcome,
                forall|k: int| 0 <= k < i ==> #[trigger] self.hands@[k].outcome == first,
            decreases self.hands@.len() - i,
        {
            if self.hands[i].outcome != first {
                return None;
            }
            i += 1;
        }
        Some(first)
    }
}


#[derive(Debug, Clone, Copy, PartialEq, Eq, Structural)]
pub enum ActError {
    Illegal,
}

/// The live table: one or two player hands, dealer cards (up first, hole
/// second), and the stock the next card will come from.
#[derive(Debug, Clone)]
pub struct Table {
    pub hands: Vec<PlayerHand>,
    pub active: usize,
    pub dealer: Vec<Card>,
    pub remaining: Vec<Card>,
    pub bet: i64,
}

/// A table as plain values.
pub struct TableModel {
    pub hands: Seq<HandModel>,
    pub active: int,
    pub dealer: Seq<Card>,
    pub remaining: Seq<Card>,
    pub bet: i64,
}

impl View for Table {
    type V = TableModel;

    open spec fn view(&self) -> TableModel {
        TableModel {
            hands: self.hands@.map_values(|hand: PlayerHand| hand@),
            active: self.active as int,
            dealer: self.dealer@,
            remaining: self.remaining@,
            bet: self.bet,
        }
    }
}

/// The sum of the first `n` hands' stakes.
pub open spec fn hands_stake(hands: Seq<HandModel>, bet: i64, n: int) -> int
    decreases n,
{
    if n <= 0 {
        0
    } else {
        hands_stake(hands, bet, n - 1) + hand_stake(hands[n - 1], bet)
    }
}

impl TableModel {
    /// The shape every operation on a table relies on: some player hand is
    /// active, and a lone unsplit hand, which is checked for naturals, faces
    /// a dealer with an up card.
    pub open spec fn well_formed(self) -> bool {
        &&& self.hands.len() > 0
        &&& 0 <= self.active < self.hands.len()
        &&& self.up_card_shown()
    }

    /// What settling reads of the dealer: a lone unsplit hand is checked
    /// against the dealer's up card for naturals, so that card must be there.
    pub open spec fn up_card_shown(self) -> bool {
        (self.hands.len() == 1 && !self.hands[0].from_split) ==> self.dealer.len() > 0
    }

    pub open spec fn active_hand(self) -> HandModel {
        self.hands[self.active]
    }

    pub open spec fn stake(self) -> int {
        hands_stake(self.hands, self.bet, self.hands.len() as int)
    }

    pub open spec fn any_doubled(self) -> bool {
        exists|i: int| 0 <= i < self.hands.len() && (#[trigger] self.hands[i]).doubled
    }

    /// A hand may draw unless it came from split aces, was doubled, or
    /// already stands on 21 or more.
    pub open spec fn can_hit(self) -> bool {
        let hand = self.active_hand();
        let value = hand_total(hand.cards);
        !hand.split_aces && !hand.doubled && !(value.best > 21) && value.best < 21
    }

    pub open spec fn can_stand(self) -> bool {
        !is_bust(self.active_hand().cards)
    }

    /// Double on any two cards that could still draw, except split aces.
    pub open spec fn can_double(self) -> bool {
        let hand = self.active_hand();
        hand.cards.len() == 2 && !hand.doubled && !hand.split_aces && self.can_hit()
    }

    /// Split once, a two-card pair of equal rank that has not been doubled.
    pub open spec fn can_split(self) -> bool {
        &&& self.hands.len() == 1
        &&& self.hands[0].cards.len() == 2
        &&& !self.hands[0].doubled
        &&& self.hands[0].cards[0].rank == self.hands[0].cards[1].rank
    }

    /// Naturals settle the table before anyone acts. The dealer only checks
    /// for blackjack with an ace or a ten showing.
    pub open spec fn opening(self) -> Option<Outcome> {
        if self.hands.len() != 1 || self.hands[0].from_split {
            None
        } else {
            let player_bj = is_natural(self.hands[0].cards);
            let dealer_bj = is_natural(self.dealer);
            let up = self.dealer[0].rank;
            if player_bj && dealer_bj {
                Some(Outcome::Push)
            } else if player_bj {
                Some(Outcome::PlayerBlackjack)
            } else if (up == Rank::Ace || rank_pip(up) == 10) && dealer_bj {
                Some(Outcome::DealerBlackjack)
            } else {
                None
            }
        }
    }

    /// How a hand fares against the dealer's final cards.
    pub open spec fn settle_hand(self, hand: HandModel) -> Outcome {
        if self.opening() is Some {
            self.opening()->0
        } else if is_bust(hand.cards) {
            Outcome::PlayerBust
        } else if is_natural(hand.cards) && !hand.from_split {
            Outcome::PlayerBlackjack
        } else if is_bust(self.dealer) {
            Outcome::PlayerWin
        } else if hand_total(hand.cards).best > hand_total(self.dealer).best {
            Outcome::PlayerWin
        } else if hand_total(hand.cards).best < hand_total(self.dealer).best {
            Outcome::DealerWin
        } else {
            Outcome::Push
        }
    }

    pub open spec fn settlement(self) -> Seq<HandResult> {
        Seq::new(
            self.hands.len(),
            |i: int|
                HandResult {
                    outcome: self.settle_hand(self.hands[i]),
                    stake: hand_stake(self.hands[i], self.bet),
                },
        )
    }

    /// A hand needs no further decision once doubled, split from aces,
    /// bust, or on 21.
    pub open spec fn hand_finished(self, index: int) -> bool {
        let hand = self.hands[index];
        let value = hand_total(hand.cards);
        hand.doubled || hand.split_aces || value.best > 21 || value.best == 21
    }

    pub open spec fn any_live(self) -> bool {
        exists|i: int| 0 <= i < self.hands.len() && !is_bust((#[trigger] self.hands[i]).cards)
    }

    /// The front card of the stock moves onto the end of hand `index`.
    pub open spec fn deal_to_hand(self, index: int) -> TableModel {
        let hand = self.hands[index];
        TableModel {
            hands: self.hands.update(
                index,
                HandModel { cards: hand.cards.push(self.remaining[0]), ..hand },
            ),
            remaining: self.remaining.drop_first(),
            ..self
        }
    }

    /// The dealer draws from the front of the stock for as long as the rules
    /// say to hit. `None` when the stock runs out first.
    pub open spec fn dealer_play(self) -> Option<TableModel>
        decreases self.remaining.len(),
    {
        if !dealer_hits(self.dealer) {
            Some(self)
        } else if self.remaining.len() == 0 {
            None
        } else {
            TableModel {
                dealer: self.dealer.push(self.remaining[0]),
                remaining: self.remaining.drop_first(),
                ..self
            }.dealer_play()
        }
    }

    /// The table is over: the dealer plays if any hand is still live, then
    /// every hand is settled.
    pub open spec fn finish(self) -> Option<(TableModel, Seq<HandResult>)> {
        let played = if self.any_live() {
            self.dealer_play()
        } else {
            Some(self)
        };
        match played {
            Some(done) => Some((done, done.settlement())),
            None => None,
        }
    }

    /// Moves on from the active hand, skipping hands that need no decision.
    /// Past the last hand the table finishes.
    pub open spec fn advance(self) -> Option<(TableModel, Option<Seq<HandResult>>)>
        decreases self.hands.len() - self.active,
    {
        if self.active < self.hands.len() - 1 {
            let next = TableModel { active: self.active + 1, ..self };
            if next.hand_finished(next.active) {
                next.advance()
            } else {
                Some((next, None))
            }
        } else {
            match self.finish() {
                Some((done, results)) => Some((done, Some(results))),
                None => None,
            }
        }
    }

    /// Splits the pair into two hands, each dealt one more card from the
    /// stock, and puts the first in play.
    pub open spec fn split_pair(self) -> TableModel {
        let first = self.hands[0];
        let aces = first.cards[0].rank == Rank::Ace;
        let left = HandModel {
            cards: seq![first.cards[0], self.remaining[0]],
            doubled: first.doubled,
            from_split: true,
            split_aces: aces,
        };
        let right = HandModel {
            cards: seq![first.cards[1], self.remaining[1]],
            doubled: false,
            from_split: true,
            split_aces: aces,
        };
        TableModel {
            hands: seq![left, right],
            active: 0,
            remaining: self.remaining.subrange(2, self.remaining.len() as int),
            ..self
        }
    }

    /// Applies a player action. The outer `None` means the stock ran out
    /// before the table could finish; the inner result is what the action
    /// answers: refused, a hand still to play, or the finished table.
    pub open spec fn act(self, action: Action) -> Option<
        (TableModel, Result<Option<Seq<HandResult>>, ActError>),
    > {
        match action {
            Action::Hit => {
                if !self.can_hit() {
                    Some((self, Err(ActError::Illegal)))
                } else if self.remaining.len() == 0 {
                    None
                } else {
                    let drawn = self.deal_to_hand(self.active);
                    let value = hand_total(drawn.active_hand().cards);
                    if value.best > 21 || value.best == 21 {
                        match drawn.advance() {
                            Some((done, results)) => Some((done, Ok(results))),
                            None => None,
                        }
                    } else {
                        Some((drawn, Ok(None)))
                    }
                }
            },
            Action::Stand => {
                if !self.can_stand() {
                    Some((self, Err(ActError::Illegal)))
                } else {
                    match self.advance() {
                        Some((done, results)) => Some((done, Ok(results))),
                        None => None,
                    }
                }
            },
            Action::Double => {
                if !self.can_double() {
                    Some((self, Err(ActError::Illegal)))
                } else if self.remaining.len() == 0 {
                    None
                } else {
                    let hand = self.active_hand();
                    let marked = TableModel {
                        hands: self.hands.update(self.active, HandModel { doubled: true, ..hand }),
                        ..self
                    };
                    match marked.deal_to_hand(self.active).advance() {
                        Some((done, results)) => Some((done, Ok(results))),
                        None => None,
                    }
                }
            },
            Action::Split => {
                if !self.can_split() {
                    Some((self, Err(ActError::Illegal)))
                } else if self.remaining.len() < 2 {
                    None
                } else {
                    let split = self.split_pair();
                    if split.hand_finished(0) && split.hand_finished(1) {
                        match split.finish() {
                            Some((done, results)) => Some((done, Ok(Some(results)))),
                            None => None,
                        }
                    } else if split.hand_finished(0) {
                        match split.advance() {
                            Some((done, results)) => Some((done, Ok(results))),
                            None => None,
                        }
                    } else {
                        Some((split, Ok(None)))
                    }
                }
            },
        }
    }
}

/// The settled hands of an action's answer, as plain values.
pub open spec fn act_view(result: Result<Option<Settlement>, ActError>) -> Result<
    Option<Seq<HandResult>>,
    ActError,
> {
    match result {
        Ok(Some(settlement)) => Ok(Some(settlement.hands@)),
        Ok(None) => Ok(None),
        Err(err) => Err(err),
    }
}


impl Table {
    /// Takes the front card of the stock.
    fn draw(&mut self) -> (card: Card)
        requires
            old(self)@.remaining.len() > 0,
        ensures
            card == old(self)@.remaining[0],
            final(self)@ == (TableModel { remaining: old(self)@.remaining.drop_first(), ..old(self)@ }),
            final(self).hands == old(self).hands,
            final(self).dealer == old(self).dealer,
    {
        let card = self.remaining.remove(0);
        assert(self@.remaining =~= old(self)@.remaining.drop_first());
        card
    }

    /// Deals the front card of the stock onto hand `index`.
    fn deal_to(&mut self, index: usize)
        requires
            index < old(self)@.hands.len(),
            old(self)@.remaining.len() > 0,
        ensures
            final(self)@ == old(self)@.deal_to_hand(index as int),
    {
        let card = self.draw();
        self.hands[index].cards.push(card);
        assert(self@.hands =~= old(self)@.deal_to_hand(index as int).hands);
    }

    /// The stake across every hand.
    pub fn stake(&self) -> (stake: i64)
        requires
            running_sums_fit(|n: int| hands_stake(self@.hands, self.bet, n), self@.hands.len() as int),
        ensures
            stake == self@.stake(),
    {
        let mut total: i64 = 0;
        let mut i: usize = 0;
        while i < self.hands.len()
            invariant
                i <= self.hands@.len(),
                running_sums_fit(|n: int| hands_stake(self@.hands, self.bet, n), self@.hands.len() as int),
                total == hands_stake(self@.hands, self.bet, i as int),
            decreases self.hands@.len() - i,
        {
            let hand_stake = self.hands[i].stake(self.bet);
            assert(i64::MIN <= hands_stake(self@.hands, self.bet, i + 1) <= i64::MAX) by {
                let f = |n: int| hands_stake(self@.hands, self.bet, n);
                assert(f(i + 1) == hands_stake(self@.hands, self.bet, i + 1));
            }
            total = total + hand_stake;
            i += 1;
        }
        total
    }

    pub fn any_doubled(&self) -> (doubled: bool)
        ensures
            doubled == self@.any_doubled(),
    {
        let mut i: usize = 0;
        while i < self.hands.len()
            invariant
                i <= self.hands@.len(),
                forall|k: int| 0 <= k < i ==> !(#[trigger] self@.hands[k]).doubled,
            decreases self.hands@.len() - i,
        {
            if self.hands[i].doubled {
                assert(self@.hands[i as int].doubled);
                return true;
            }
            i += 1;
        }
        false
    }

    /// The hand the player is acting on.
    fn active_hand(&self) -> (hand: &PlayerHand)
        requires
            self.active < self.hands@.len(),
        ensures
            hand@ == self@.active_hand(),
    {
        &self.hands[self.active]
    }

    pub fn can_hit(&self) -> (legal: bool)
        requires
            self.active < self.hands@.len(),
        ensures
            legal == self@.can_hit(),
    {
        let hand = self.active_hand();
        !hand.split_aces && !hand.doubled && {
            let value = total(&hand.cards);
            !value.bust() && value.best < 21
        }
    }

    pub fn can_stand(&self) -> (legal: bool)
        requires
            self.active < self.hands@.len(),
        ensures
            legal == self@.can_stand(),
    {
        !total(&self.active_hand().cards).bust()
    }

    pub fn can_double(&self) -> (legal: bool)
        requires
            self.active < self.hands@.len(),
        ensures
            legal == self@.can_double(),
    {
        let hand = self.active_hand();
        hand.cards.len() == 2 && !hand.doubled && !hand.split_aces && self.can_hit()
    }

    pub fn can_split(&self) -> (legal: bool)
        ensures
            legal == self@.can_split(),
    {
        self.hands.len() == 1 && self.hands[0].cards.len() == 2 && !self.hands[0].doubled
            && self.hands[0].cards[0].rank == self.hands[0].cards[1].rank
    }

    /// Immediate result of the deal, if neither side needs to act.
    pub fn opening(&self) -> (outcome: Option<Outcome>)
        requires
            self@.up_card_shown(),
        ensures
            outcome == self@.opening(),
    {
        if self.hands.len() != 1 || self.hands[0].from_split {
            return None;
        }
        let player_bj = is_blackjack(&self.hands[0].cards);
        let dealer_bj = is_blackjack(&self.dealer);
        let dealer_up = self.dealer[0].rank;

        if player_bj && dealer_bj {
            return Some(Outcome::Push);
        }
        if player_bj {
            return Some(Outcome::PlayerBlackjack);
        }
        if (dealer_up == Rank::Ace || dealer_up.is_ten()) && dealer_bj {
            return Some(Outcome::DealerBlackjack);
        }
        None
    }

    /// Deals the next card to the active hand.
    pub fn hit(&mut self)
        requires
            old(self).active < old(self).hands@.len(),
            old(self)@.remaining.len() > 0,
        ensures
            final(self)@ == old(self)@.deal_to_hand(old(self)@.active),
    {
        let active = self.active;
        self.deal_to(active);
    }

    /// Doubles the active hand's stake and deals it exactly one card.
    pub fn double(&mut self)
        requires
            old(self)@.well_formed(),
            old(self)@.remaining.len() > 0,
        ensures
            final(self)@ == (TableModel {
                hands: old(self)@.hands.update(
                    old(self)@.active,
                    HandModel { doubled: true, ..old(self)@.active_hand() },
                ),
                ..old(self)@
            }).deal_to_hand(old(self)@.active),
    {
        let active = self.active;
        self.hands[active].doubled = true;
        let ghost marked = TableModel {
            hands: old(self)@.hands.update(
                old(self)@.active,
                HandModel { doubled: true, ..old(self)@.active_hand() },
            ),
            ..old(self)@
        };
        assert(self@.hands =~= marked.hands);
        self.deal_to(active);
    }

    fn split(&mut self)
        requires
            old(self)@.can_split(),
            old(self)@.remaining.len() >= 2,
        ensures
            final(self)@ == old(self)@.split_pair(),
    {
        let second = self.hands[0].cards.pop().unwrap();
        let aces = self.hands[0].cards[0].rank == Rank::Ace;
        self.hands[0].from_split = true;
        self.hands[0].split_aces = aces;
        let mut cards: Vec<Card> = Vec::new();
        cards.push(second);
        self.hands.push(PlayerHand { cards, doubled: false, from_split: true, split_aces: aces });

        let first = self.draw();
        self.hands[0].cards.push(first);
        let other = self.draw();
        self.hands[1].cards.push(other);
        self.active = 0;
        proof {
            let expected = old(self)@.split_pair();
            assert(self@.hands[0].cards =~= expected.hands[0].cards);
            assert(self@.hands[1].cards =~= expected.hands[1].cards);
            assert(self@.hands =~= expected.hands);
            assert(self@.remaining =~= expected.remaining);
        }
    }

    fn play_dealer(&mut self)
        requires
            old(self)@.dealer_play() is Some,
        ensures
            final(self)@ == old(self)@.dealer_play()->0,
    {
        while dealer_should_hit(&self.dealer)
            invariant
                self@.dealer_play() == old(self)@.dealer_play(),
                self@.dealer_play() is Some,
            decreases self@.remaining.len(),
        {
            let card = self.draw();
            self.dealer.push(card);
        }
    }

    fn any_live(&self) -> (live: bool)
        ensures
            live == self@.any_live(),
    {
        let mut i: usize = 0;
        while i < self.hands.len()
            invariant
                i <= self.hands@.len(),
                forall|k: int| 0 <= k < i ==> is_bust((#[trigger] self@.hands[k]).cards),
            decreases self.hands@.len() - i,
        {
            if !total(&self.hands[i].cards).bust() {
                assert(!is_bust(self@.hands[i as int].cards));
                return true;
            }
            i += 1;
        }
        false
    }

    fn hand_finished(&self, index: usize) -> (finished: bool)
        requires
            index < self@.hands.len(),
        ensures
            finished == self@.hand_finished(index as int),
    {
        let hand = &self.hands[index];
        let value = total(&hand.cards);
        hand.doubled || hand.split_aces || value.bust() || value.best == 21
    }
}


/// The dealer's draw touches only the dealer's cards and the stock.
pub proof fn lemma_dealer_play_touches_only_the_dealer(t: TableModel)
    requires
        t.dealer_play() is Some,
    ensures
        (t.dealer_play()->0).hands == t.hands,
        (t.dealer_play()->0).active == t.active,
        (t.dealer_play()->0).bet == t.bet,
        (t.dealer_play()->0).dealer.len() >= t.dealer.len(),
        (t.dealer_play()->0).dealer.subrange(0, t.dealer.len() as int) == t.dealer,
        !dealer_hits((t.dealer_play()->0).dealer),
    decreases t.remaining.len(),
{
    if dealer_hits(t.dealer) {
        let next = TableModel {
            dealer: t.dealer.push(t.remaining[0]),
            remaining: t.remaining.drop_first(),
            ..t
        };
        lemma_dealer_play_touches_only_the_dealer(next);
        let done = next.dealer_play()->0;
        assert(done.dealer.subrange(0, t.dealer.len() as int) =~= next.dealer.subrange(
            0,
            t.dealer.len() as int,
        ));
        assert(next.dealer.subrange(0, t.dealer.len() as int) =~= t.dealer);
    } else {
        assert(t.dealer.subrange(0, t.dealer.len() as int) =~= t.dealer);
    }
}

/// Finishing a table keeps its hands and which one was active.
pub proof fn lemma_finish_keeps_hands(t: TableModel)
    requires
        t.finish() is Some,
    ensures
        (t.finish()->0).0.hands == t.hands,
        (t.finish()->0).0.active == t.active,
        (t.finish()->0).0.bet == t.bet,
        (t.finish()->0).0.dealer.len() >= t.dealer.len(),
        (t.finish()->0).0.dealer.subrange(0, t.dealer.len() as int) == t.dealer,
{
    if t.any_live() {
        lemma_dealer_play_touches_only_the_dealer(t);
    } else {
        assert(t.dealer.subrange(0, t.dealer.len() as int) =~= t.dealer);
    }
}

/// Moving on keeps the table well formed.
pub proof fn lemma_advance_keeps_shape(t: TableModel)
    requires
        t.well_formed(),
        t.advance() is Some,
    ensures
        (t.advance()->0).0.well_formed(),
        (t.advance()->0).0.hands == t.hands,
        (t.advance()->0).0.bet == t.bet,
    decreases t.hands.len() - t.active,
{
    if t.active + 1 < t.hands.len() {
        let next = TableModel { active: t.active + 1, ..t };
        if next.hand_finished(next.active) {
            lemma_advance_keeps_shape(next);
        }
    } else {
        lemma_finish_keeps_hands(t);
    }
}

/// Every action leaves the table well formed.
pub proof fn lemma_act_keeps_shape(t: TableModel, action: Action)
    requires
        t.well_formed(),
        t.act(action) is Some,
    ensures
        (t.act(action)->0).0.well_formed(),
        (t.act(action)->0).0.bet == t.bet,
{
    match action {
        Action::Hit => {
            if t.can_hit() {
                let drawn = t.deal_to_hand(t.active);
                let value = hand_total(drawn.active_hand().cards);
                if value.best > 21 || value.best == 21 {
                    lemma_advance_keeps_shape(drawn);
                }
            }
        },
        Action::Stand => {
            if t.can_stand() {
                lemma_advance_keeps_shape(t);
            }
        },
        Action::Double => {
            if t.can_double() {
                let hand = t.active_hand();
                let marked = TableModel {
                    hands: t.hands.update(t.active, HandModel { doubled: true, ..hand }),
                    ..t
                };
                lemma_advance_keeps_shape(marked.deal_to_hand(t.active));
            }
        },
        Action::Split => {
            if t.can_split() {
                let split = t.split_pair();
                if split.hand_finished(0) && split.hand_finished(1) {
                    lemma_finish_keeps_hands(split);
                } else if split.hand_finished(0) {
                    lemma_advance_keeps_shape(split);
                }
            }
        },
    }
}

impl Table {
    /// How `hand` fares against the dealer's cards.
    pub fn settle_hand(&self, hand: &PlayerHand) -> (outcome: Outcome)
        requires
            self@.up_card_shown(),
        ensures
            outcome == self@.settle_hand(hand@),
    {
        if let Some(opening) = self.opening() {
            return opening;
        }
        let player = total(&hand.cards);
        if player.bust() {
            return Outcome::PlayerBust;
        }
        if is_blackjack(&hand.cards) && !hand.from_split {
            return Outcome::PlayerBlackjack;
        }
        let dealer = total(&self.dealer);
        if dealer.bust() {
            return Outcome::PlayerWin;
        }
        if player.best > dealer.best {
            Outcome::PlayerWin
        } else if player.best < dealer.best {
            Outcome::DealerWin
        } else {
            Outcome::Push
        }
    }

    /// Every hand's outcome and stake.
    pub fn settlement(&self) -> (settlement: Settlement)
        requires
            self@.up_card_shown(),
        ensures
            settlement.hands@ == self@.settlement(),
    {
        let mut hands: Vec<HandResult> = Vec::new();
        let mut i: usize = 0;
        while i < self.hands.len()
            invariant
                self@.up_card_shown(),
                i <= self.hands@.len(),
                hands@.len() == i,
                forall|k: int| 0 <= k < i ==> #[trigger] hands@[k] == self@.settlement()[k],
            decreases self.hands@.len() - i,
        {
            let outcome = self.settle_hand(&self.hands[i]);
            let stake = self.hands[i].stake(self.bet);
            hands.push(HandResult { outcome, stake });
            i += 1;
        }
        assert(hands@ =~= self@.settlement());
        Settlement { hands }
    }

    /// The dealer draws only while some hand is still live.
    fn play_dealer_if_needed(&mut self)
        requires
            old(self)@.well_formed(),
            old(self)@.finish() is Some,
        ensures
            final(self)@ == (old(self)@.finish()->0).0,
            final(self)@.well_formed(),
    {
        if self.any_live() {
            proof {
                lemma_dealer_play_touches_only_the_dealer(self@);
            }
            self.play_dealer();
        }
    }

    /// The dealer plays out if any hand is still live, and every hand is
    /// settled.
    fn finish(&mut self) -> (settlement: Settlement)
        requires
            old(self)@.well_formed(),
            old(self)@.finish() is Some,
        ensures
            final(self)@ == (old(self)@.finish()->0).0,
            settlement.hands@ == (old(self)@.finish()->0).1,
    {
        self.play_dealer_if_needed();
        self.settlement()
    }

    /// Move on from the active hand. `None` means another hand still needs
    /// a decision; `Some` means the table is over.
    fn advance(&mut self) -> (settled: Option<Settlement>)
        requires
            old(self)@.well_formed(),
            old(self)@.advance() is Some,
        ensures
            final(self)@ == (old(self)@.advance()->0).0,
            settled matches Some(s) ==> (old(self)@.advance()->0).1 == Some(s.hands@),
            settled is None ==> (old(self)@.advance()->0).1 is None,
        decreases old(self)@.hands.len() - old(self)@.active,
    {
        proof {
            lemma_advance_keeps_shape(self@);
        }
        assert(self.active < self.hands@.len());
        if self.active < self.hands.len() - 1 {
            self.active = self.active + 1;
            if self.hand_finished(self.active) {
                return self.advance();
            }
            None
        } else {
            Some(self.finish())
        }
    }

    /// Apply a player action. `None` means a hand is still the player's.
    pub fn act(&mut self, action: Action) -> (result: Result<Option<Settlement>, ActError>)
        requires
            old(self)@.well_formed(),
            old(self)@.act(action) is Some,
        ensures
            final(self)@ == (old(self)@.act(action)->0).0,
            act_view(result) == (old(self)@.act(action)->0).1,
            final(self)@.well_formed(),
    {
        proof {
            lemma_act_keeps_shape(self@, action);
        }
        match action {
            Action::Hit => {
                if !self.can_hit() {
                    return Err(ActError::Illegal);
                }
                self.hit();
                let value = total(&self.hands[self.active].cards);
                if value.bust() || value.best == 21 {
                    Ok(self.advance())
                } else {
                    Ok(None)
                }
            },
            Action::Stand => {
                if !self.can_stand() {
                    return Err(ActError::Illegal);
                }
                Ok(self.advance())
            },
            Action::Double => {
                if !self.can_double() {
                    return Err(ActError::Illegal);
                }
                self.double();
                Ok(self.advance())
            },
            Action::Split => {
                if !self.can_split() {
                    return Err(ActError::Illegal);
                }
                self.split();
                if self.hand_finished(0) && self.hands.len() > 1 && self.hand_finished(1) {
                    return Ok(Some(self.finish()));
                }
                if self.hand_finished(0) {
                    return Ok(self.advance());
                }
                Ok(None)
            },
        }
    }
}


/// Whether the dealer's draw can play out depends only on the dealer's
/// cards and the stock.
proof fn lemma_dealer_play_reads_only_dealer_and_stock(a: TableModel, b: TableModel)
    requires
        a.dealer == b.dealer,
        a.remaining == b.remaining,
    ensures
        (a.dealer_play() is Some) == (b.dealer_play() is Some),
    decreases a.remaining.len(),
{
    if dealer_hits(a.dealer) && a.remaining.len() > 0 {
        lemma_dealer_play_reads_only_dealer_and_stock(
            TableModel { dealer: a.dealer.push(a.remaining[0]), remaining: a.remaining.drop_first(), ..a },
            TableModel { dealer: b.dealer.push(b.remaining[0]), remaining: b.remaining.drop_first(), ..b },
        );
    }
}

impl Table {
    /// An exact copy of the table, to try an action on.
    fn duplicate(&self) -> (copy: Table)
        ensures
            copy@ == self@,
    {
        let mut hands: Vec<PlayerHand> = Vec::new();
        let mut i: usize = 0;
        while i < self.hands.len()
            invariant
                i <= self.hands@.len(),
                hands@.len() == i,
                forall|k: int| 0 <= k < i ==> (#[trigger] hands@[k])@ == self.hands@[k]@,
            decreases self.hands@.len() - i,
        {
            let hand = &self.hands[i];
            hands.push(
                PlayerHand {
                    cards: copy_cards(&hand.cards),
                    doubled: hand.doubled,
                    from_split: hand.from_split,
                    split_aces: hand.split_aces,
                },
            );
            i += 1;
        }
        let copy = Table {
            hands,
            active: self.active,
            dealer: copy_cards(&self.dealer),
            remaining: copy_cards(&self.remaining),
            bet: self.bet,
        };
        assert(copy@.hands =~= self@.hands);
        copy
    }

    /// Whether the dealer can draw to a standing hand before the stock runs
    /// out.
    fn dealer_play_lasts(&self) -> (lasts: bool)
        ensures
            lasts == self@.dealer_play() is Some,
    {
        let mut dealer = copy_cards(&self.dealer);
        let mut next: usize = 0;
        assert(self.remaining@.subrange(0, self.remaining@.len() as int) =~= self.remaining@);
        while dealer_should_hit(&dealer)
            invariant
                next <= self.remaining@.len(),
                (self@.dealer_play() is Some) == ((TableModel {
                    dealer: dealer@,
                    remaining: self.remaining@.subrange(next as int, self.remaining@.len() as int),
                    ..self@
                }).dealer_play() is Some),
            decreases self.remaining@.len() - next,
        {
            if next == self.remaining.len() {
                return false;
            }
            let ghost before = TableModel {
                dealer: dealer@,
                remaining: self.remaining@.subrange(next as int, self.remaining@.len() as int),
                ..self@
            };
            dealer.push(self.remaining[next]);
            next += 1;
            assert(self.remaining@.subrange(next as int, self.remaining@.len() as int)
                =~= before.remaining.drop_first());
        }
        true
    }

    /// Whether finishing the table can play out from the stock.
    fn finish_lasts(&self) -> (lasts: bool)
        ensures
            lasts == self@.finish() is Some,
    {
        if self.any_live() {
            self.dealer_play_lasts()
        } else {
            true
        }
    }

    /// Whether moving on from the active hand can play out from the stock.
    fn advance_lasts(&self) -> (lasts: bool)
        requires
            self@.well_formed(),
        ensures
            lasts == self@.advance() is Some,
    {
        let mut i: usize = self.active;
        assert(self@ == (TableModel { active: i as int, ..self@ }));
        loop
            invariant
                self@.well_formed(),
                self.active <= i < self.hands@.len(),
                (self@.advance() is Some) == ((TableModel { active: i as int, ..self@ }).advance() is Some),
            decreases self.hands@.len() - i,
        {
            if i < self.hands.len() - 1 {
                let ghost at = TableModel { active: i as int, ..self@ };
                i = i + 1;
                assert((TableModel { active: i as int, ..at }) == (TableModel { active: i as int, ..self@ }));
                if !self.hand_finished(i) {
                    return true;
                }
            } else {
                proof {
                    lemma_dealer_play_reads_only_dealer_and_stock(TableModel { active: i as int, ..self@ }, self@);
                }
                return self.finish_lasts();
            }
        }
    }

    /// Whether the stock holds enough cards for `action` to play out. A
    /// refused action needs none; every other action needs its own cards and,
    /// when it ends the table, the dealer's.
    pub fn stock_lasts(&self, action: Action) -> (lasts: bool)
        requires
            self@.well_formed(),
        ensures
            lasts == self@.act(action) is Some,
    {
        match action {
            Action::Hit => {
                if !self.can_hit() {
                    return true;
                }
                if self.remaining.len() == 0 {
                    return false;
                }
                let mut trial = self.duplicate();
                trial.hit();
                let value = total(&trial.hands[trial.active].cards);
                if value.bust() || value.best == 21 {
                    trial.advance_lasts()
                } else {
                    true
                }
            },
            Action::Stand => {
                if !self.can_stand() {
                    return true;
                }
                self.advance_lasts()
            },
            Action::Double => {
                if !self.can_double() {
                    return true;
                }
                if self.remaining.len() == 0 {
                    return false;
                }
                let mut trial = self.duplicate();
                trial.double();
                trial.advance_lasts()
            },
            Action::Split => {
                if !self.can_split() {
                    return true;
                }
                if self.remaining.len() < 2 {
                    return false;
                }
                let mut trial = self.duplicate();
                trial.split();
                if trial.hand_finished(0) && trial.hand_finished(1) {
                    trial.finish_lasts()
                } else if trial.hand_finished(0) {
                    trial.advance_lasts()
                } else {
                    true
                }
            },
        }
    }
}

/// An exact copy of a run of cards.
fn copy_cards(cards: &Vec<Card>) -> (copy: Vec<Card>)
    ensures
        copy@ == cards@,
{
    let mut copy: Vec<Card> = Vec::new();
    let mut i: usize = 0;
    while i < cards.len()
        invariant
            i <= cards@.len(),
            copy@ == cards@.subrange(0, i as int),
        decreases cards@.len() - i,
    {
        copy.push(cards[i]);
        i += 1;
        assert(copy@ =~= cards@.subrange(0, i as int));
    }
    assert(copy@ =~= cards@);
    copy
}

/// How an open table is stored: every hand, and which one is in play.
pub struct StoredPlayer {
    pub hands: Vec<StoredHand>,
    pub active: usize,
}

pub struct StoredHand {
    pub cards: Vec<Card>,
    pub doubled: bool,
    pub from_split: bool,
    pub split_aces: bool,
}

impl View for StoredHand {
    type V = HandModel;

    open spec fn view(&self) -> HandModel {
        HandModel {
            cards: self.cards@,
            doubled: self.doubled,
            from_split: self.from_split,
            split_aces: self.split_aces,
        }
    }
}

/// Whether a stored player column is the bare card array written before
/// splits existed (one hand, in play), rather than the current record of
/// every hand: the older form opens with `[` once leading white space is
/// skipped.
pub fn is_legacy_player(text: &str) -> (legacy: bool)
    ensures
        legacy == (trimmed_start(text@).len() > 0 && trimmed_start(text@)[0] == '['),
{
    let rest = trim_start(text);
    rest.unicode_len() > 0 && rest.get_char(0) == '['
}

/// Restores the hands of a stored table. The stored position of the hand in
/// play is clamped to the last hand, so a damaged record cannot point past
/// the end.
pub fn restore_player(stored: StoredPlayer) -> (restored: (Vec<PlayerHand>, usize))
    ensures
        restored.0@.map_values(|hand: PlayerHand| hand@) == stored.hands@.map_values(
            |hand: StoredHand| hand@,
        ),
        restored.1 == (if stored.active < stored.hands@.len() {
            stored.active as int
        } else if stored.hands@.len() == 0 {
            0
        } else {
            stored.hands@.len() - 1
        }),
{
    let mut hands: Vec<PlayerHand> = Vec::new();
    let mut i: usize = 0;
    while i < stored.hands.len()
        invariant
            i <= stored.hands@.len(),
            hands@.len() == i,
            forall|k: int| 0 <= k < i ==> (#[trigger] hands@[k])@ == stored.hands@[k]@,
        decreases stored.hands@.len() - i,
    {
        let hand = &stored.hands[i];
        hands.push(
            PlayerHand {
                cards: copy_cards(&hand.cards),
                doubled: hand.doubled,
                from_split: hand.from_split,
                split_aces: hand.split_aces,
            },
        );
        i += 1;
    }
    assert(hands@.map_values(|hand: PlayerHand| hand@) =~= stored.hands@.map_values(
        |hand: StoredHand| hand@,
    ));
    let last = if stored.hands.len() == 0 {
        0
    } else {
        stored.hands.len() - 1
    };
    let active = if stored.active < last {
        stored.active
    } else {
        last
    };
    (hands, active)
}

impl Table {
    /// Shuffles a fresh shoe and deals two cards each, player first,
    /// alternating, the dealer's second card face down.
    pub fn deal(rng: &mut StdRng, bet: i64) -> (table: Self)
        ensures
            table@.well_formed(),
            table@.hands.len() == 1,
            table@.active == 0,
            table@.bet == bet,
            !table@.hands[0].doubled && !table@.hands[0].from_split && !table@.hands[0].split_aces,
            table@.hands[0].cards.len() == 2,
            table@.dealer.len() == 2,
            table@.remaining.len() == 48,
            (table@.hands[0].cards + table@.dealer + table@.remaining).to_multiset()
                == deck_seq().to_multiset(),
            (table@.hands[0].cards + table@.dealer + table@.remaining).no_duplicates(),
            table_cards(table@) == deck_seq().to_multiset(),
    {
        let shoe = shuffled_deck(rng);
        let ghost deck = shoe@;
        let mut table = Table {
            hands: Vec::new(),
            active: 0,
            dealer: Vec::new(),
            remaining: shoe,
            bet,
        };
        table.hands.push(PlayerHand::fresh(Vec::new()));

        let first = table.draw();
        table.hands[0].cards.push(first);
        let up = table.draw();
        table.dealer.push(up);
        let second = table.draw();
        table.hands[0].cards.push(second);
        let hole = table.draw();
        table.dealer.push(hole);
        proof {
            broadcast use vstd::seq_lib::group_to_multiset_ensures;

            let all = table@.hands[0].cards + table@.dealer + table@.remaining;
            assert(table@.hands[0].cards =~= seq![deck[0], deck[2]]);
            assert(table@.dealer =~= seq![deck[1], deck[3]]);
            assert(table@.remaining =~= deck.subrange(4, 52));
            let reordered = seq![deck[0], deck[2], deck[1], deck[3]] + deck.subrange(4, 52);
            assert(all =~= reordered);
            assert(deck =~= seq![deck[0], deck[1], deck[2], deck[3]] + deck.subrange(4, 52));
            vstd::seq_lib::lemma_multiset_commutative(
                seq![deck[0], deck[2], deck[1], deck[3]],
                deck.subrange(4, 52),
            );
            vstd::seq_lib::lemma_multiset_commutative(
                seq![deck[0], deck[1], deck[2], deck[3]],
                deck.subrange(4, 52),
            );
            assert(seq![deck[0], deck[2], deck[1], deck[3]].to_multiset() =~= seq![
                deck[0],
                deck[1],
                deck[2],
                deck[3],
            ].to_multiset()) by {
                broadcast use vstd::multiset::group_multiset_axioms;

                assert(seq![deck[0], deck[2], deck[1], deck[3]] =~= seq![deck[0], deck[2], deck[1]].push(deck[3]));
                assert(seq![deck[0], deck[2], deck[1]] =~= seq![deck[0], deck[2]].push(deck[1]));
                assert(seq![deck[0], deck[2]] =~= seq![deck[0]].push(deck[2]));
                assert(seq![deck[0]] =~= Seq::<Card>::empty().push(deck[0]));
                assert(seq![deck[0], deck[1], deck[2], deck[3]] =~= seq![deck[0], deck[1], deck[2]].push(deck[3]));
                assert(seq![deck[0], deck[1], deck[2]] =~= seq![deck[0], deck[1]].push(deck[2]));
                assert(seq![deck[0], deck[1]] =~= seq![deck[0]].push(deck[1]));
            }
            assert(all.to_multiset() == deck.to_multiset());
            lemma_shuffled_deck_has_no_duplicates(all);
            lemma_single_hand_table_cards(table@);
        }
        table
    }

    /// The hands as they are stored between requests.
    pub fn stored_player(&self) -> (stored: StoredPlayer)
        ensures
            stored.hands@.map_values(|hand: StoredHand| hand@) == self@.hands,
            stored.active == self.active,
    {
        let mut hands: Vec<StoredHand> = Vec::new();
        let mut i: usize = 0;
        while i < self.hands.len()
            invariant
                i <= self.hands@.len(),
                hands@.len() == i,
                forall|k: int| 0 <= k < i ==> (#[trigger] hands@[k])@ == self@.hands[k],
            decreases self.hands@.len() - i,
        {
            let hand = &self.hands[i];
            hands.push(
                StoredHand {
                    cards: copy_cards(&hand.cards),
                    doubled: hand.doubled,
                    from_split: hand.from_split,
                    split_aces: hand.split_aces,
                },
            );
            i += 1;
        }
        assert(hands@.map_values(|hand: StoredHand| hand@) =~= self@.hands);
        StoredPlayer { hands, active: self.active }
    }
}


/// What the client is allowed to see. The hole card is omitted until settlement.
#[derive(Debug)]
pub struct PublicTable {
    pub player: Vec<Card>,
    pub hands: Vec<PublicHand>,
    pub active_hand: usize,
    pub dealer: Vec<Card>,
    pub player_total: u8,
    pub dealer_total: Option<u8>,
    pub bet: i64,
    pub stake: i64,
    pub doubled: bool,
    pub can_hit: bool,
    pub can_stand: bool,
    pub can_double: bool,
    pub can_split: bool,
    pub phase: Phase,
    pub outcome: Option<Outcome>,
    pub payout: Option<i64>,
    pub net: Option<i64>,
}

#[derive(Debug)]
pub struct PublicHand {
    pub cards: Vec<Card>,
    pub total: u8,
    pub bet: i64,
    pub stake: i64,
    pub doubled: bool,
    pub from_split: bool,
    pub active: bool,
    pub outcome: Option<Outcome>,
    pub payout: Option<i64>,
    pub net: Option<i64>,
}

/// What `publish` needs of the numbers it adds up: the table's stake and,
/// once settled, the payout, stake and net of every hand and of the table
/// all fit in an `i64`.
pub open spec fn publishable(table: TableModel, settled: Option<Seq<HandResult>>) -> bool {
    &&& running_sums_fit(|n: int| hands_stake(table.hands, table.bet, n), table.hands.len() as int)
    &&& match settled {
        Some(results) => {
            &&& running_sums_fit(|n: int| payout_sum(results, n), results.len() as int)
            &&& running_sums_fit(|n: int| stake_sum(results, n), results.len() as int)
            &&& i64::MIN <= payout_sum(results, results.len() as int) - stake_sum(
                results,
                results.len() as int,
            ) <= i64::MAX
            &&& forall|i: int|
                0 <= i < results.len() ==> i64::MIN <= result_payout(#[trigger] results[i])
                    - results[i].stake <= i64::MAX
        },
        None => table.hands.len() > 0 && 0 <= table.active < table.hands.len() && table.dealer.len() > 0,
    }
}

/// Whether every running total of the table's stakes fits in an `i64`.
fn table_stakes_fit(table: &Table) -> (fits: bool)
    ensures
        fits == running_sums_fit(|n: int| hands_stake(table@.hands, table.bet, n), table@.hands.len() as int),
{
    let mut total: i64 = 0;
    let mut i: usize = 0;
    while i < table.hands.len()
        invariant
            i <= table@.hands.len(),
            total == hands_stake(table@.hands, table.bet, i as int),
            forall|n: int| 0 <= n <= i ==> i64::MIN <= #[trigger] hands_stake(table@.hands, table.bet, n) <= i64::MAX,
        decreases table@.hands.len() - i,
    {
        match total.checked_add(table.hands[i].stake(table.bet)) {
            Some(next) => {
                total = next;
                i += 1;
            },
            None => {
                proof {
                    let sum = |n: int| hands_stake(table@.hands, table.bet, n);
                    assert(sum(i + 1) == hands_stake(table@.hands, table.bet, i + 1));
                }
                return false;
            },
        }
    }
    true
}

/// Whether every running total of the settled hands' payouts fits in an
/// `i64`.
fn payouts_fit(results: &Vec<HandResult>) -> (fits: bool)
    ensures
        fits == running_sums_fit(|n: int| payout_sum(results@, n), results@.len() as int),
{
    let mut total: i64 = 0;
    let mut i: usize = 0;
    while i < results.len()
        invariant
            i <= results@.len(),
            total == payout_sum(results@, i as int),
            forall|n: int| 0 <= n <= i ==> i64::MIN <= #[trigger] payout_sum(results@, n) <= i64::MAX,
        decreases results@.len() - i,
    {
        match total.checked_add(results[i].payout()) {
            Some(next) => {
                total = next;
                i += 1;
            },
            None => {
                proof {
                    let sum = |n: int| payout_sum(results@, n);
                    assert(sum(i + 1) == payout_sum(results@, i + 1));
                }
                return false;
            },
        }
    }
    true
}

/// Whether every running total of the settled hands' stakes fits in an
/// `i64`.
fn result_stakes_fit(results: &Vec<HandResult>) -> (fits: bool)
    ensures
        fits == running_sums_fit(|n: int| stake_sum(results@, n), results@.len() as int),
{
    let mut total: i64 = 0;
    let mut i: usize = 0;
    while i < results.len()
        invariant
            i <= results@.len(),
            total == stake_sum(results@, i as int),
            forall|n: int| 0 <= n <= i ==> i64::MIN <= #[trigger] stake_sum(results@, n) <= i64::MAX,
        decreases results@.len() - i,
    {
        match total.checked_add(results[i].stake) {
            Some(next) => {
                total = next;
                i += 1;
            },
            None => {
                proof {
                    let sum = |n: int| stake_sum(results@, n);
                    assert(sum(i + 1) == stake_sum(results@, i + 1));
                }
                return false;
            },
        }
    }
    true
}

/// Whether `publish` can show this table: every figure it adds up fits in
/// an `i64`, and a table still in play has a hand in play and an up card.
pub fn can_publish(table: &Table, settlement: Option<&Settlement>) -> (fits: bool)
    ensures
        fits == publishable(
            table@,
            match settlement {
                Some(done) => Some(done.hands@),
                None => None,
            },
        ),
{
    if !table_stakes_fit(table) {
        return false;
    }
    match settlement {
        None => table.hands.len() > 0 && table.active < table.hands.len() && table.dealer.len() > 0,
        Some(done) => {
            if !payouts_fit(&done.hands) || !result_stakes_fit(&done.hands) {
                return false;
            }
            let paid = done.payout();
            let staked = done.total_stake();
            if paid.checked_sub(staked).is_none() {
                return false;
            }
            let mut i: usize = 0;
            while i < done.hands.len()
                invariant
                    settlement == Some(done),
                    i <= done.hands@.len(),
                    forall|k: int|
                        0 <= k < i ==> i64::MIN <= result_payout(#[trigger] done.hands@[k]) - done.hands@[k].stake
                            <= i64::MAX,
                decreases done.hands@.len() - i,
            {
                if done.hands[i].payout().checked_sub(done.hands[i].stake).is_none() {
                    assert(!(i64::MIN <= result_payout(done.hands@[i as int]) - done.hands@[i as int].stake
                        <= i64::MAX));
                    return false;
                }
                i += 1;
            }
            true
        },
    }
}

/// The hand whose cards headline the view: the active one, or the last
/// hand if the position has run past the end.
pub open spec fn headline_index(table: TableModel) -> int {
    if table.active < table.hands.len() - 1 {
        table.active
    } else {
        table.hands.len() - 1
    }
}

/// Builds the client's view of a table. Until the table is settled the
/// dealer shows only the up card and no total; afterwards every card, the
/// totals and each hand's result are shown. Doubling and splitting are only
/// offered when the player can cover another bet.
pub fn publish(table: &Table, settlement: Option<&Settlement>, can_afford_extra: bool) -> (view:
    PublicTable)
    requires
        table@.hands.len() > 0,
        publishable(
            table@,
            match settlement {
                Some(done) => Some(done.hands@),
                None => None,
            },
        ),
    ensures
        view.player@ == table@.hands[headline_index(table@)].cards,
        view.player_total == hand_total(table@.hands[headline_index(table@)].cards).best,
        view.active_hand == table.active,
        view.dealer@ == (if settlement is Some {
            table@.dealer
        } else {
            seq![table@.dealer[0]]
        }),
        view.dealer_total == (if settlement is Some {
            Some(hand_total(table@.dealer).best)
        } else {
            None::<u8>
        }),
        view.bet == table.bet,
        view.stake == table@.stake(),
        view.doubled == table@.any_doubled(),
        view.can_hit == (settlement is None && table@.can_hit()),
        view.can_stand == (settlement is None && table@.can_stand()),
        view.can_double == (settlement is None && table@.can_double() && can_afford_extra),
        view.can_split == (settlement is None && table@.can_split() && can_afford_extra),
        view.phase == (if settlement is Some {
            Phase::Settled
        } else {
            Phase::Player
        }),
        view.outcome == (match settlement {
            Some(done) => common_outcome(done.hands@),
            None => None,
        }),
        view.payout == (match settlement {
            Some(done) => Some(payout_sum(done.hands@, done.hands@.len() as int) as i64),
            None => None,
        }),
        view.net == (match settlement {
            Some(done) => Some(
                (payout_sum(done.hands@, done.hands@.len() as int) - stake_sum(
                    done.hands@,
                    done.hands@.len() as int,
                )) as i64,
            ),
            None => None,
        }),
        view.hands@.len() == table@.hands.len(),
        forall|i: int|
            0 <= i < table@.hands.len() ==> {
                let hand = table@.hands[i];
                let shown = #[trigger] view.hands@[i];
                let result = match settlement {
                    Some(done) => if i < done.hands@.len() {
                        Some(done.hands@[i])
                    } else {
                        None
                    },
                    None => None,
                };
                &&& shown.cards@ == hand.cards
                &&& shown.total == hand_total(hand.cards).best
                &&& shown.bet == table.bet
                &&& shown.stake == hand_stake(hand, table.bet)
                &&& shown.doubled == hand.doubled
                &&& shown.from_split == hand.from_split
                &&& shown.active == (settlement is None && i == table.active)
                &&& shown.outcome == (match result {
                    Some(r) => Some(r.outcome),
                    None => None,
                })
                &&& shown.payout == (match result {
                    Some(r) => Some(result_payout(r)),
                    None => None,
                })
                &&& shown.net == (match result {
                    Some(r) => Some((result_payout(r) - r.stake) as i64),
                    None => None,
                })
            },
{
    let settled = settlement.is_some();
    let dealer = if settled {
        copy_cards(&table.dealer)
    } else {
        let mut up: Vec<Card> = Vec::new();
        up.push(table.dealer[0]);
        assert(up@ =~= seq![table@.dealer[0]]);
        up
    };
    let dealer_total = if settled {
        Some(total(&table.dealer).best)
    } else {
        None
    };
    let (payout, net) = match settlement {
        Some(done) => (Some(done.payout()), Some(done.net())),
        None => (None, None),
    };
    let last = table.hands.len() - 1;
    let headline = if table.active < last {
        table.active
    } else {
        last
    };
    let active_cards = &table.hands[headline].cards;

    let mut hands: Vec<PublicHand> = Vec::new();
    let mut index: usize = 0;
    while index < table.hands.len()
        invariant
            index <= table@.hands.len(),
            hands@.len() == index,
            settled == settlement is Some,
            publishable(
                table@,
                match settlement {
                    Some(done) => Some(done.hands@),
                    None => None,
                },
            ),
            forall|i: int|
                0 <= i < index ==> {
                    let hand = table@.hands[i];
                    let shown = #[trigger] hands@[i];
                    let result = match settlement {
                        Some(done) => if i < done.hands@.len() {
                            Some(done.hands@[i])
                        } else {
                            None
                        },
                        None => None,
                    };
                    &&& shown.cards@ == hand.cards
                    &&& shown.total == hand_total(hand.cards).best
                    &&& shown.bet == table.bet
                    &&& shown.stake == hand_stake(hand, table.bet)
                    &&& shown.doubled == hand.doubled
                    &&& shown.from_split == hand.from_split
                    &&& shown.active == (settlement is None && i == table.active)
                    &&& shown.outcome == (match result {
                        Some(r) => Some(r.outcome),
                        None => None,
                    })
                    &&& shown.payout == (match result {
                        Some(r) => Some(result_payout(r)),
                        None => None,
                    })
                    &&& shown.net == (match result {
                        Some(r) => Some((result_payout(r) - r.stake) as i64),
                        None => None,
                    })
                },
        decreases table@.hands.len() - index,
    {
        let hand = &table.hands[index];
        let result: Option<HandResult> = match settlement {
            Some(done) => if index < done.hands.len() {
                Some(done.hands[index])
            } else {
                None
            },
            None => None,
        };
        let (outcome, paid, hand_net) = match result {
            Some(item) => {
                let paid = item.payout();
                (Some(item.outcome), Some(paid), Some(paid - item.stake))
            },
            None => (None, None, None),
        };
        hands.push(
            PublicHand {
                cards: copy_cards(&hand.cards),
                total: total(&hand.cards).best,
                bet: table.bet,
                stake: hand.stake(table.bet),
                doubled: hand.doubled,
                from_split: hand.from_split,
                active: !settled && index == table.active,
                outcome,
                payout: paid,
                net: hand_net,
            },
        );
        index += 1;
    }

    PublicTable {
        player: copy_cards(active_cards),
        hands,
        active_hand: table.active,
        dealer,
        player_total: total(active_cards).best,
        dealer_total,
        bet: table.bet,
        stake: table.stake(),
        doubled: table.any_doubled(),
        can_hit: !settled && table.can_hit(),
        can_stand: !settled && table.can_stand(),
        can_double: !settled && table.can_double() && can_afford_extra,
        can_split: !settled && table.can_split() && can_afford_extra,
        phase: if settled {
            Phase::Settled
        } else {
            Phase::Player
        },
        outcome: match settlement {
            Some(done) => done.outcome(),
            None => None,
        },
        payout,
        net,
    }
}

#[derive(Debug)]
pub struct RuleLine {
    pub kind: Outcome,
    pub name: &'static str,
    pub pays: &'static str,
}

/// The posted results and what each pays.
pub fn rules() -> (lines: Vec<RuleLine>)
    ensures
        lines@.len() == 6,
        lines@[0].kind == Outcome::PlayerBlackjack && lines@[0].name@ == "Blackjack"@
            && lines@[0].pays@ == "3:2"@,
        lines@[1].kind == Outcome::PlayerWin && lines@[1].name@ == "Win"@ && lines@[1].pays@
            == "1:1"@,
        lines@[2].kind == Outcome::Push && lines@[2].name@ == "Push"@ && lines@[2].pays@
            == "stake back"@,
        lines@[3].kind == Outcome::DealerWin && lines@[3].name@ == "Dealer wins"@
            && lines@[3].pays@ == "lose"@,
        lines@[4].kind == Outcome::PlayerBust && lines@[4].name@ == "Bust"@ && lines@[4].pays@
            == "lose"@,
        lines@[5].kind == Outcome::DealerBlackjack && lines@[5].name@ == "Dealer blackjack"@
            && lines@[5].pays@ == "lose"@,
{
    let mut lines: Vec<RuleLine> = Vec::new();
    lines.push(RuleLine { kind: Outcome::PlayerBlackjack, name: "Blackjack", pays: "3:2" });
    lines.push(RuleLine { kind: Outcome::PlayerWin, name: "Win", pays: "1:1" });
    lines.push(RuleLine { kind: Outcome::Push, name: "Push", pays: "stake back" });
    lines.push(RuleLine { kind: Outcome::DealerWin, name: "Dealer wins", pays: "lose" });
    lines.push(RuleLine { kind: Outcome::PlayerBust, name: "Bust", pays: "lose" });
    lines.push(RuleLine { kind: Outcome::DealerBlackjack, name: "Dealer blackjack", pays: "lose" });
    lines
}

} // verus!
