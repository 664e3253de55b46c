//! What holds of every blackjack table across actions: no card is created or
//! destroyed, the dealer never draws to an all-bust table, a split hand never
//! collects 3:2, split aces finish at once, a double or split puts exactly
//! one more bet at risk, and a hit or a stand puts nothing more at risk.
//! Also the house rules themselves: when the dealer draws and stands, what
//! each outcome pays, when a double is allowed, how a hand settles against
//! the dealer, and how naturals decide the table at the deal.

use vstd::multiset::Multiset;
use vstd::prelude::*;

use super::blackjack::{
    dealer_hits, hand_stake, hand_total, hands_stake, outcome_payout, pip_sum, result_payout, Action,
    ActError, HandModel, Outcome, TableModel,
};
use super::cards::{rank_pip, Card, Rank};
use crate::arith::saturate;

verus! {

broadcast use {vstd::multiset::group_multiset_axioms, vstd::seq_lib::group_to_multiset_ensures};

/// Every card held in the player's hands.
pub open spec fn hand_cards(hands: Seq<HandModel>) -> Multiset<Card>
    decreases hands.len(),
{
    if hands.len() == 0 {
        Multiset::empty()
    } else {
        hand_cards(hands.drop_last()).add(hands.last().cards.to_multiset())
    }
}

/// Every card on the table: the player's hands, the dealer's cards, and the
/// stock.
pub open spec fn table_cards(t: TableModel) -> Multiset<Card> {
    hand_cards(t.hands).add(t.dealer.to_multiset()).add(t.remaining.to_multiset())
}

proof fn lemma_hand_cards_update(hands: Seq<HandModel>, i: int, hand: HandModel)
    requires
        0 <= i < hands.len(),
    ensures
        hand_cards(hands.update(i, hand)).add(hands[i].cards.to_multiset()) =~= hand_cards(
            hands,
        ).add(hand.cards.to_multiset()),
    decreases hands.len(),
{
    let updated = hands.update(i, hand);
    let old_cards = hands[i].cards.to_multiset();
    let new_cards = hand.cards.to_multiset();
    assert(hand_cards(updated) == hand_cards(updated.drop_last()).add(
        updated.last().cards.to_multiset(),
    ));
    assert(hand_cards(hands) == hand_cards(hands.drop_last()).add(
        hands.last().cards.to_multiset(),
    ));
    if i == hands.len() - 1 {
        assert(updated.drop_last() =~= hands.drop_last());
        assert(updated.last() == hand);
    } else {
        assert(updated.drop_last() =~= hands.drop_last().update(i, hand));
        assert(updated.last() == hands.last());
        assert(hands.drop_last()[i] == hands[i]);
        lemma_hand_cards_update(hands.drop_last(), i, hand);
        let inner_before = hand_cards(hands.drop_last());
        let inner_after = hand_cards(hands.drop_last().update(i, hand));
        assert forall|v: Card|
            hand_cards(updated).add(old_cards).count(v) == hand_cards(hands).add(new_cards).count(
                v,
            ) by {
            assert(inner_after.add(old_cards).count(v) == inner_before.add(new_cards).count(v));
        }
    }
}

proof fn lemma_same_cards_same_total(hands: Seq<HandModel>, i: int, hand: HandModel)
    requires
        0 <= i < hands.len(),
        hand.cards == hands[i].cards,
    ensures
        hand_cards(hands.update(i, hand)) =~= hand_cards(hands),
{
    lemma_hand_cards_update(hands, i, hand);
    let a = hand_cards(hands.update(i, hand));
    let b = hand_cards(hands);
    let m = hand.cards.to_multiset();
    assert forall|v: Card| a.count(v) == b.count(v) by {
        assert(a.add(m).count(v) == b.add(m).count(v));
    }
}

/// Dealing a card moves it from the stock into a hand.
pub proof fn lemma_deal_to_hand_conserves_cards(t: TableModel, index: int)
    requires
        0 <= index < t.hands.len(),
        t.remaining.len() > 0,
    ensures
        table_cards(t.deal_to_hand(index)) =~= table_cards(t),
{
    let hand = t.hands[index];
    let grown = HandModel { cards: hand.cards.push(t.remaining[0]), ..hand };
    lemma_hand_cards_update(t.hands, index, grown);
    assert(t.remaining =~= seq![t.remaining[0]] + t.remaining.drop_first());
    vstd::seq_lib::lemma_multiset_commutative(seq![t.remaining[0]], t.remaining.drop_first());
    assert(seq![t.remaining[0]] =~= Seq::<Card>::empty().push(t.remaining[0]));
    let after = t.deal_to_hand(index);
    let a = hand_cards(after.hands);
    let b = hand_cards(t.hands);
    assert forall|v: Card| table_cards(after).count(v) == table_cards(t).count(v) by {
        assert(a.add(hand.cards.to_multiset()).count(v) == b.add(grown.cards.to_multiset()).count(
            v,
        ));
    }
}

/// The dealer's draws move cards from the stock to the dealer.
pub proof fn lemma_dealer_play_conserves_cards(t: TableModel)
    requires
        t.dealer_play() is Some,
    ensures
        table_cards(t.dealer_play()->0) =~= table_cards(t),
    decreases t.remaining.len(),
{
    if super::blackjack::dealer_hits(t.dealer) {
        let next = TableModel {
            dealer: t.dealer.push(t.remaining[0]),
            remaining: t.remaining.drop_first(),
            ..t
        };
        lemma_dealer_play_conserves_cards(next);
        assert(t.remaining =~= seq![t.remaining[0]] + t.remaining.drop_first());
        vstd::seq_lib::lemma_multiset_commutative(seq![t.remaining[0]], t.remaining.drop_first());
        assert(seq![t.remaining[0]] =~= Seq::<Card>::empty().push(t.remaining[0]));
        assert(table_cards(next) =~= table_cards(t));
    }
}

proof fn lemma_finish_conserves_cards(t: TableModel)
    requires
        t.finish() is Some,
    ensures
        table_cards((t.finish()->0).0) =~= table_cards(t),
{
    if t.any_live() {
        lemma_dealer_play_conserves_cards(t);
    }
}

proof fn lemma_advance_conserves_cards(t: TableModel)
    requires
        t.advance() is Some,
    ensures
        table_cards((t.advance()->0).0) =~= table_cards(t),
    decreases t.hands.len() - t.active,
{
    if t.active + 1 < t.hands.len() {
        let next = TableModel { active: t.active + 1, ..t };
        assert(table_cards(next) == table_cards(t));
        if next.hand_finished(next.active) {
            lemma_advance_conserves_cards(next);
        }
    } else {
        lemma_finish_conserves_cards(t);
    }
}

proof fn lemma_split_conserves_cards(t: TableModel)
    requires
        t.can_split(),
        t.remaining.len() >= 2,
    ensures
        table_cards(t.split_pair()) =~= table_cards(t),
{
    let first = t.hands[0];
    let split = t.split_pair();
    let c0 = first.cards[0];
    let c1 = first.cards[1];
    let r0 = t.remaining[0];
    let r1 = t.remaining[1];
    let rest = t.remaining.subrange(2, t.remaining.len() as int);
    assert(t.hands.drop_last() =~= Seq::<HandModel>::empty());
    assert(split.hands.drop_last() =~= seq![split.hands[0]]);
    assert(seq![split.hands[0]].drop_last() =~= Seq::<HandModel>::empty());
    assert(first.cards =~= Seq::<Card>::empty().push(c0).push(c1));
    assert(split.hands[0].cards =~= Seq::<Card>::empty().push(c0).push(r0));
    assert(split.hands[1].cards =~= Seq::<Card>::empty().push(c1).push(r1));
    assert(t.remaining =~= seq![r0, r1] + rest);
    vstd::seq_lib::lemma_multiset_commutative(seq![r0, r1], rest);
    assert(seq![r0, r1] =~= Seq::<Card>::empty().push(r0).push(r1));
    let empty = Seq::<HandModel>::empty();
    assert(hand_cards(empty) == Multiset::<Card>::empty());
    assert(hand_cards(t.hands) == hand_cards(empty).add(first.cards.to_multiset()));
    assert(hand_cards(seq![split.hands[0]]) == hand_cards(empty).add(
        split.hands[0].cards.to_multiset(),
    ));
    assert(hand_cards(split.hands) == hand_cards(seq![split.hands[0]]).add(
        split.hands[1].cards.to_multiset(),
    ));
    assert(table_cards(split) =~= table_cards(t));
}

/// No action creates or destroys a card: whatever the player does, the
/// hands, the dealer's cards and the stock together hold exactly the cards
/// they held before.
pub proof fn lemma_act_conserves_cards(t: TableModel, action: Action)
    requires
        t.well_formed(),
        t.act(action) is Some,
    ensures
        table_cards((t.act(action)->0).0) =~= table_cards(t),
{
    match action {
        Action::Hit => {
            if t.can_hit() {
                let drawn = t.deal_to_hand(t.active);
                lemma_deal_to_hand_conserves_cards(t, t.active);
                let value = hand_total(drawn.active_hand().cards);
                if value.best > 21 || value.best == 21 {
                    lemma_advance_conserves_cards(drawn);
                }
            }
        },
        Action::Stand => {
            if t.can_stand() {
                lemma_advance_conserves_cards(t);
            }
        },
        Action::Double => {
            if t.can_double() {
                let hand = t.active_hand();
                let marked = TableModel {
                    hands: t.hands.update(t.active, HandModel { doubled: true, ..hand }),
                    ..t
                };
                lemma_same_cards_same_total(t.hands, t.active, HandModel { doubled: true, ..hand });
                assert(table_cards(marked) =~= table_cards(t));
                lemma_deal_to_hand_conserves_cards(marked, t.active);
                lemma_advance_conserves_cards(marked.deal_to_hand(t.active));
            }
        },
        Action::Split => {
            if t.can_split() {
                let split = t.split_pair();
                lemma_split_conserves_cards(t);
                if split.hand_finished(0) && split.hand_finished(1) {
                    lemma_finish_conserves_cards(split);
                } else if split.hand_finished(0) {
                    lemma_advance_conserves_cards(split);
                }
            }
        },
    }
}


/// A hand that came from a split never collects the 3:2 blackjack bonus: a
/// two-card 21 there pays even money.
pub proof fn lemma_split_hands_never_pay_three_to_two(t: TableModel, index: int)
    requires
        t.well_formed(),
        0 <= index < t.hands.len(),
        t.hands[index].from_split,
    ensures
        t.settle_hand(t.hands[index]) != Outcome::PlayerBlackjack,
{
}

/// When every player hand has bust, the dealer does not draw: finishing the
/// table leaves the dealer's cards and the stock as they were.
pub proof fn lemma_dealer_stands_when_every_hand_busts(t: TableModel)
    requires
        !t.any_live(),
    ensures
        t.finish() is Some,
        (t.finish()->0).0 == t,
{
}

/// Splitting aces deals each ace one card and finishes the table at once.
pub proof fn lemma_split_aces_settle_at_once(t: TableModel)
    requires
        t.well_formed(),
        t.can_split(),
        t.hands[0].cards[0].rank == Rank::Ace,
        t.act(Action::Split) is Some,
    ensures
        (t.act(Action::Split)->0).1 matches Ok(Some(_)),
{
    assert(t.remaining.len() >= 2);
    let split = t.split_pair();
    assert(split.hand_finished(0) && split.hand_finished(1));
}

proof fn lemma_hands_stake_update(hands: Seq<HandModel>, bet: i64, i: int, hand: HandModel, n: int)
    requires
        0 <= i < hands.len(),
        0 <= n <= hands.len(),
    ensures
        hands_stake(hands.update(i, hand), bet, n) == hands_stake(hands, bet, n) + (if i < n {
            hand_stake(hand, bet) - hand_stake(hands[i], bet)
        } else {
            0
        }),
    decreases n,
{
    if n > 0 {
        lemma_hands_stake_update(hands, bet, i, hand, n - 1);
    }
}

/// Doubling puts exactly one more bet at risk: the table's stake grows by
/// the bet, which is what the wallet is debited.
pub proof fn lemma_double_adds_one_bet(t: TableModel)
    requires
        t.well_formed(),
        t.can_double(),
        t.act(Action::Double) is Some,
        i64::MIN <= t.bet * 2 <= i64::MAX,
    ensures
        (t.act(Action::Double)->0).0.stake() == t.stake() + t.bet,
{
    let hand = t.active_hand();
    let doubled = HandModel { doubled: true, ..hand };
    let marked = TableModel { hands: t.hands.update(t.active, doubled), ..t };
    lemma_hands_stake_update(t.hands, t.bet, t.active, doubled, t.hands.len() as int);
    assert(marked.stake() == t.stake() + t.bet);
    let drawn = marked.deal_to_hand(t.active);
    let grown = HandModel { cards: doubled.cards.push(marked.remaining[0]), ..doubled };
    assert(marked.hands[t.active] == doubled);
    lemma_hands_stake_update(marked.hands, t.bet, t.active, grown, t.hands.len() as int);
    assert(drawn.stake() == marked.stake());
    super::blackjack::lemma_advance_keeps_shape(drawn);
}

/// Splitting puts exactly one more bet at risk: one undoubled hand becomes
/// two.
pub proof fn lemma_split_adds_one_bet(t: TableModel)
    requires
        t.well_formed(),
        t.can_split(),
        t.act(Action::Split) is Some,
    ensures
        (t.act(Action::Split)->0).0.stake() == t.stake() + t.bet,
{
    let split = t.split_pair();
    assert(t.stake() == hands_stake(t.hands, t.bet, 0) + hand_stake(t.hands[0], t.bet));
    assert(split.stake() == hands_stake(split.hands, t.bet, 1) + hand_stake(split.hands[1], t.bet));
    assert(hands_stake(split.hands, t.bet, 1) == hands_stake(split.hands, t.bet, 0) + hand_stake(
        split.hands[0],
        t.bet,
    ));
    assert(split.stake() == t.stake() + t.bet);
    if split.hand_finished(0) && split.hand_finished(1) {
        super::blackjack::lemma_finish_keeps_hands(split);
    } else if split.hand_finished(0) {
        super::blackjack::lemma_advance_keeps_shape(split);
    }
}


/// A hit or a stand puts nothing more at risk: the table's stake is what it
/// was, whether or not the action was legal.
pub proof fn lemma_hit_and_stand_keep_the_stake(t: TableModel, action: Action)
    requires
        t.well_formed(),
        action == Action::Hit || action == Action::Stand,
        t.act(action) is Some,
    ensures
        (t.act(action)->0).0.stake() == t.stake(),
{
    if action == Action::Hit && t.can_hit() {
        let drawn = t.deal_to_hand(t.active);
        let hand = t.active_hand();
        lemma_hands_stake_update(
            t.hands,
            t.bet,
            t.active,
            HandModel { cards: hand.cards.push(t.remaining[0]), ..hand },
            t.hands.len() as int,
        );
        assert(drawn.stake() == t.stake());
        let value = hand_total(drawn.active_hand().cards);
        if value.best > 21 || value.best == 21 {
            super::blackjack::lemma_advance_keeps_shape(drawn);
        }
    } else if action == Action::Stand && t.can_stand() {
        super::blackjack::lemma_advance_keeps_shape(t);
    }
}


/// A single-hand table holds exactly the cards of its hand, the dealer's
/// cards and the stock laid end to end.
pub proof fn lemma_single_hand_table_cards(t: TableModel)
    requires
        t.hands.len() == 1,
    ensures
        table_cards(t) =~= (t.hands[0].cards + t.dealer + t.remaining).to_multiset(),
{
    assert(t.hands.drop_last() =~= Seq::<HandModel>::empty());
    assert(hand_cards(Seq::<HandModel>::empty()) == Multiset::<Card>::empty());
    vstd::seq_lib::lemma_multiset_commutative(t.hands[0].cards, t.dealer);
    vstd::seq_lib::lemma_multiset_commutative(t.hands[0].cards + t.dealer, t.remaining);
}

/// The dealer draws below 17 and on a soft 17, and stands on everything
/// else: a hard 17, any 18 to 21, and a bust.
pub proof fn lemma_dealer_draws_below_17_and_on_soft_17(cards: Seq<Card>)
    ensures
        dealer_hits(cards) <==> (hand_total(cards).best < 17 || (hand_total(cards).best == 17
            && hand_total(cards).soft)),
        18 <= hand_total(cards).best ==> !dealer_hits(cards),
{
}

/// A dealer already standing on 17 or more (a soft 17 aside) draws
/// nothing: playing out the dealer leaves the table exactly as it was.
pub proof fn lemma_a_standing_dealer_draws_nothing(t: TableModel)
    requires
        17 <= hand_total(t.dealer).best,
        !(hand_total(t.dealer).best == 17 && hand_total(t.dealer).soft),
    ensures
        t.dealer_play() == Some(t),
{
}

/// Once the dealer has played, the dealer's hand stands: it is bust, on
/// 18 or more, or on a hard 17; and the dealer's cards are the ones it had
/// followed by the front of the stock, the rest of which is left.
pub proof fn lemma_dealer_play_ends_standing(t: TableModel)
    ensures
        t.dealer_play() matches Some(done) ==> {
            &&& hand_total(done.dealer).best > 17 || (hand_total(done.dealer).best == 17
                && !hand_total(done.dealer).soft)
            &&& t.dealer.len() <= done.dealer.len() <= t.dealer.len() + t.remaining.len()
            &&& done.dealer == t.dealer + t.remaining.take(done.dealer.len() - t.dealer.len())
            &&& done.remaining == t.remaining.skip(done.dealer.len() - t.dealer.len())
        },
    decreases t.remaining.len(),
{
    if dealer_hits(t.dealer) && t.remaining.len() > 0 {
        let next = TableModel {
            dealer: t.dealer.push(t.remaining[0]),
            remaining: t.remaining.drop_first(),
            ..t
        };
        lemma_dealer_play_ends_standing(next);
        if let Some(done) = next.dealer_play() {
            let k = done.dealer.len() - next.dealer.len();
            assert(t.remaining.take(k + 1) =~= seq![t.remaining[0]] + next.remaining.take(k));
            assert(done.dealer =~= t.dealer + t.remaining.take(k + 1));
            assert(done.remaining =~= t.remaining.skip(k + 1));
        }
    } else if !dealer_hits(t.dealer) {
        assert(t.remaining.take(0) =~= Seq::<Card>::empty());
        assert(t.dealer + t.remaining.take(0) =~= t.dealer);
        assert(t.remaining.skip(0) =~= t.remaining);
    }
}

/// A lost hand pays nothing, whatever was staked: a dealer win, a player
/// bust and a dealer blackjack alike. A push hands back exactly the stake,
/// a win the stake and even money, and a player blackjack the stake and 3:2
/// rounded down.
pub proof fn lemma_what_each_outcome_pays(stake: i64)
    ensures
        outcome_payout(Outcome::DealerWin, stake) == 0,
        outcome_payout(Outcome::PlayerBust, stake) == 0,
        outcome_payout(Outcome::DealerBlackjack, stake) == 0,
        outcome_payout(Outcome::Push, stake) == stake,
        0 <= stake <= i64::MAX / 3 ==> outcome_payout(Outcome::PlayerWin, stake) == 2 * stake,
        0 <= stake <= i64::MAX / 3 ==> outcome_payout(Outcome::PlayerBlackjack, stake) == stake + (3
            * stake) / 2,
{
}

/// Doubling is only on a hand's first two cards: with any other number of
/// cards in the active hand, a double is refused and the table is left as
/// it was.
pub proof fn lemma_double_only_on_two_cards(t: TableModel)
    requires
        t.well_formed(),
        t.active_hand().cards.len() != 2,
    ensures
        t.act(Action::Double) == Some((t, Err::<Option<Seq<super::blackjack::HandResult>>, ActError>(ActError::Illegal))),
{
}

/// Unless a natural at the deal decides the table, a hand over 21 loses
/// as a bust whatever the dealer holds, even a busted dealer, and pays
/// nothing; a hand can only win when it is not bust.
pub proof fn lemma_a_bust_hand_loses(t: TableModel, hand: HandModel)
    requires
        t.opening() is None,
    ensures
        hand_total(hand.cards).best > 21 ==> t.settle_hand(hand) == Outcome::PlayerBust,
        t.settle_hand(hand) == Outcome::PlayerWin ==> hand_total(hand.cards).best <= 21,
        forall|i: int|
            0 <= i < t.hands.len() && hand_total(t.hands[i].cards).best > 21 ==> (#[trigger] t.settlement()[i]).outcome
                == Outcome::PlayerBust && result_payout(t.settlement()[i]) == 0,
{
}

/// The dealer checks for blackjack at the deal: against a lone unsplit hand
/// that is not itself a natural, a dealer holding an ace and a ten-valued
/// card, in either order, settles the table at once as a dealer blackjack.
pub proof fn lemma_a_dealer_natural_settles_at_once(t: TableModel)
    requires
        t.hands.len() == 1,
        !t.hands[0].from_split,
        t.dealer.len() == 2,
        (t.dealer[0].rank == Rank::Ace && rank_pip(t.dealer[1].rank) == 10) || (rank_pip(t.dealer[0].rank)
            == 10 && t.dealer[1].rank == Rank::Ace),
        !(t.hands[0].cards.len() == 2 && hand_total(t.hands[0].cards).best == 21),
    ensures
        t.opening() == Some(Outcome::DealerBlackjack),
{
    let d = t.dealer;
    assert(d.drop_last().drop_last() =~= Seq::<Card>::empty());
    assert(d.drop_last().last() == d[0]);
    assert(pip_sum(d.drop_last().drop_last()) == 0);
    assert(pip_sum(d.drop_last()) == rank_pip(d[0].rank));
    assert(pip_sum(d) == pip_sum(d.drop_last()) + rank_pip(d[1].rank));
    assert(pip_sum(d) == 11);
    if d[0].rank == Rank::Ace {
        assert(d[0].rank == Rank::Ace);
    } else {
        assert(d[1].rank == Rank::Ace);
    }
    assert(hand_total(d).best == 21);
}

/// A two-card hand that has not doubled, is not from split aces and is
/// under 21 may double: the action is not refused.
pub proof fn lemma_two_cards_under_21_may_double(t: TableModel)
    requires
        t.well_formed(),
        t.active_hand().cards.len() == 2,
        !t.active_hand().doubled,
        !t.active_hand().split_aces,
        hand_total(t.active_hand().cards).best < 21,
    ensures
        t.act(Action::Double) matches Some((_, answer)) ==> answer is Ok,
{
}

/// Against the dealer's final cards, a hand that stands (no natural at the
/// deal, the hand not bust) wins when the dealer busts or it holds the
/// higher total, loses to a higher dealer total, and pushes on a tie; an
/// unsplit two-card 21 is paid as a blackjack.
pub proof fn lemma_a_standing_hand_against_the_dealer(t: TableModel, hand: HandModel)
    requires
        t.opening() is None,
        hand_total(hand.cards).best <= 21,
    ensures
        hand.cards.len() == 2 && hand_total(hand.cards).best == 21 && !hand.from_split
            ==> t.settle_hand(hand) == Outcome::PlayerBlackjack,
        !(hand.cards.len() == 2 && hand_total(hand.cards).best == 21 && !hand.from_split) ==> {
            &&& hand_total(t.dealer).best > 21 ==> t.settle_hand(hand) == Outcome::PlayerWin
            &&& hand_total(t.dealer).best <= 21 && hand_total(hand.cards).best > hand_total(t.dealer).best
                ==> t.settle_hand(hand) == Outcome::PlayerWin
            &&& hand_total(t.dealer).best <= 21 && hand_total(hand.cards).best < hand_total(t.dealer).best
                ==> t.settle_hand(hand) == Outcome::DealerWin
            &&& hand_total(t.dealer).best <= 21 && hand_total(hand.cards).best == hand_total(t.dealer).best
                ==> t.settle_hand(hand) == Outcome::Push
        },
{
}

/// Naturals at the deal, for a lone unsplit hand: a player natural pushes
/// against a dealer natural and is paid as a blackjack otherwise; without a
/// player natural, the table opens only on a dealer natural.
pub proof fn lemma_naturals_at_the_deal(t: TableModel)
    requires
        t.hands.len() == 1,
        !t.hands[0].from_split,
        t.dealer.len() > 0,
    ensures
        (t.hands[0].cards.len() == 2 && hand_total(t.hands[0].cards).best == 21) ==> t.opening() == Some(
            if t.dealer.len() == 2 && hand_total(t.dealer).best == 21 {
                Outcome::Push
            } else {
                Outcome::PlayerBlackjack
            },
        ),
        !(t.hands[0].cards.len() == 2 && hand_total(t.hands[0].cards).best == 21) && !(t.dealer.len() == 2
            && hand_total(t.dealer).best == 21) ==> t.opening() is None,
        t.opening() is Some ==> t.opening() != Some(Outcome::DealerBlackjack) || (t.dealer.len() == 2
            && hand_total(t.dealer).best == 21),
{
}

} // verus!
