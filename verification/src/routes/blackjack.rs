//! The blackjack endpoints: which stakes are taken, what a deal or an action
//! does to the table and the wallet, and what the player is shown.

use rand::rngs::StdRng;
use vstd::prelude::*;

use super::{bet_range_message, check_bet};
use crate::error::ApiError;
use crate::games::cards::deck_seq;
use crate::games::blackjack::{
    act_view, Action, ActError, PublicTable, Settlement, Table, TableModel, MAX_BET, MIN_BET,
};
use crate::games::blackjack_laws::{
    lemma_double_adds_one_bet, lemma_hit_and_stand_keep_the_stake, lemma_split_adds_one_bet,
};

verus! {

pub struct DealRequest {
    pub bet: i64,
}

pub struct ActRequest {
    pub action: Action,
}

pub struct OpenHandResponse {
    pub hand: Option<PublicTable>,
    pub balance: i64,
}

pub struct HandResponse {
    pub table: PublicTable,
    pub balance: i64,
}

/// What a player is told when an action does not fit the hand.
pub open spec fn illegal_action_message() -> Seq<char> {
    "that action is not legal on this hand"@
}

impl DealRequest {
    /// Checks the stake and deals two cards each from a fresh shuffle.
    /// Naturals settle the table at once, at the table's stake.
    pub fn open_table(&self, rng: &mut StdRng) -> (opened: Result<(Table, Option<Settlement>), ApiError>)
        ensures
            opened is Ok <==> MIN_BET <= self.bet <= MAX_BET,
            opened matches Err(err) ==> err matches ApiError::BadRequest(message)
                && message@ == bet_range_message(MIN_BET, MAX_BET),
            opened matches Ok(dealt) ==> {
                &&& dealt.0@.well_formed()
                &&& dealt.0@.hands.len() == 1
                &&& dealt.0@.active == 0
                &&& dealt.0@.bet == self.bet
                &&& dealt.0@.hands[0].cards.len() == 2
                &&& dealt.0@.dealer.len() == 2
                &&& dealt.0@.remaining.len() == 48
                &&& !dealt.0@.hands[0].doubled
                &&& (dealt.0@.hands[0].cards + dealt.0@.dealer + dealt.0@.remaining).to_multiset()
                    == deck_seq().to_multiset()
                &&& (dealt.0@.hands[0].cards + dealt.0@.dealer + dealt.0@.remaining).no_duplicates()
                &&& match dealt.0@.opening() {
                    Some(outcome) => dealt.1 matches Some(settled) && settled.hands@.len() == 1
                        && settled.hands@[0].outcome == outcome
                        && settled.hands@[0].stake == self.bet,
                    None => dealt.1 is None,
                }
            },
    {
        match check_bet(self.bet, MIN_BET, MAX_BET) {
            Err(err) => return Err(err),
            Ok(()) => {},
        }
        let table = Table::deal(rng, self.bet);
        let settlement = match table.opening() {
            Some(outcome) => Some(Settlement::single(outcome, self.bet)),
            None => None,
        };
        Ok((table, settlement))
    }
}

impl ActRequest {
    /// Applies the action to the open table. Doubling or splitting stakes
    /// another bet, so either is refused while the balance cannot cover the
    /// bet; an action that does not fit the hand is refused as a bad request.
    /// Otherwise the table moves on, and the answer carries the extra stake
    /// to debit and, once the table is over, its settlement.
    ///
    /// The stake must leave room for the doubled and split hands' stakes to
    /// be summed in an `i64`; every table `open_table` deals holds a stake
    /// within `MIN_BET..=MAX_BET`, far inside that room.
    pub fn apply(&self, table: &mut Table, balance: i64) -> (applied: Result<(i64, Option<Settlement>), ApiError>)
        requires
            match self.action {
                Action::Double | Action::Split => balance < old(table).bet,
                _ => false,
            } || {
                &&& old(table)@.well_formed()
                &&& old(table)@.act(self.action) is Some
                &&& 0 <= old(table)@.bet <= i64::MAX / 2
            },
        ensures
            match self.action {
                Action::Double | Action::Split => balance < old(table).bet,
                _ => false,
            } ==> applied == Err::<(i64, Option<Settlement>), ApiError>(ApiError::InsufficientFunds)
                && *final(table) == *old(table),
            !match self.action {
                Action::Double | Action::Split => balance < old(table).bet,
                _ => false,
            } ==> match (old(table)@.act(self.action)->0).1 {
                Err(_) => applied matches Err(err) && err matches ApiError::BadRequest(message)
                    && message@ == illegal_action_message() && final(table)@ == old(table)@,
                Ok(results) => applied matches Ok(done) && act_view(Ok(done.1)) == Ok::<
                    Option<Seq<crate::games::blackjack::HandResult>>,
                    ActError,
                >(results) && final(table)@ == (old(table)@.act(self.action)->0).0
                    && done.0 == final(table)@.stake() - old(table)@.stake(),
            },
            old(table)@.well_formed() ==> final(table)@.well_formed(),
    {
        let costs_a_bet = match self.action {
            Action::Double | Action::Split => true,
            _ => false,
        };
        if costs_a_bet && balance < table.bet {
            return Err(ApiError::InsufficientFunds);
        }
        let ghost before: TableModel = table@;
        let bet = table.bet;
        match table.act(self.action) {
            Err(ActError::Illegal) => {
                Err(ApiError::BadRequest(String::from_str("that action is not legal on this hand")))
            },
            Ok(settlement) => {
                proof {
                    match self.action {
                        Action::Double => lemma_double_adds_one_bet(before),
                        Action::Split => lemma_split_adds_one_bet(before),
                        _ => lemma_hit_and_stand_keep_the_stake(before, self.action),
                    }
                }
                let extra = if costs_a_bet {
                    bet
                } else {
                    0
                };
                Ok((extra, settlement))
            },
        }
    }
}

} // verus!
