//! The moves of the private auction: bidding on a private company and
//! buying the cheapest.

use crate::game::Game;
use crate::ids::{PrivComId, RoundId};
use crate::rounds::priv_auction::seat_following;
use vstd::prelude::*;

verus! {

impl Game {
    /// Returns whether placing a bid of `amount` on `private` is allowed
    pub fn bid_priv_allowed(&self, private: PrivComId, amount: u32) -> (b: bool)
        requires
            self@.wf(),
        ensures
            b == self@.bid_priv_allowed(private, amount),
    {
        assert(self@.players[self.current_player as int].id == self.current_player);
        match &self.round {
            RoundId::PrivAuction(priv_auction) => priv_auction.bid_allowed(
                &self.players[self.current_player],
                private,
                amount,
            ),
            _ => false,
        }
    }

    /// Places a bid of `amount` on `private`
    pub fn bid_priv(&mut self, private: PrivComId, amount: u32)
        requires
            old(self)@.wf(),
            old(self)@.bid_priv_allowed(private, amount),
        ensures
            final(self)@ == old(self)@.bid_priv(private, amount),
            final(self)@.wf(),
    {
        proof {
            self@.lemma_bid_priv(private, amount);
            assert(self@.players[self.current_player as int].id == self.current_player);
        }
        match &mut self.round {
            RoundId::PrivAuction(priv_auction) => {
                priv_auction.place_bid(&self.players[self.current_player], private, amount);
            },
            _ => {},
        }
        assert(self@ =~~= (crate::game::view::GameView {
            round: crate::ids::RoundView::PrivAuction(
                old(self)@.auction().place_bid(old(self)@.current_player as int, private, amount),
            ),
            ..old(self)@
        }));
        self.advance_current_player();
    }

    /// Returns whether buying the cheapest private company is allowed
    pub fn buy_cheapest_priv_allowed(&self) -> (b: bool)
        requires
            self@.wf(),
        ensures
            b == self@.buy_cheapest_priv_allowed(),
    {
        assert(self@.players[self.current_player as int].id == self.current_player);
        match &self.round {
            RoundId::PrivAuction(priv_auction) => priv_auction.buy_allowed(
                &self.players[self.current_player],
            ),
            _ => false,
        }
    }

    /// Hands the private company `lot` to the player at `seat` for
    /// `price`, once the auction has gone on: if no lot is left the first
    /// stock round begins, else the turn moves on
    pub(crate) fn settle_sale(&mut self, lot: PrivComId, seat: usize, price: u32, Ghost(before): Ghost<
        crate::game::view::GameView,
    >)
        requires
            old(self)@.round is PrivAuction,
            before.wf(),
            before.round is PrivAuction,
            seat < before.players.len(),
            price <= before.players[seat as int].capital,
            old(self)@ == (crate::game::view::GameView { round: old(self)@.round, ..before }),
            before.lot_sold(old(self)@.auction(), lot, seat as int, price as nat).wf(),
        ensures
            final(self)@ == before.lot_sold(old(self)@.auction(), lot, seat as int, price as nat),
    {
        self.players[seat].buy_priv(lot, price);
        let done: bool = match &self.round {
            RoundId::PrivAuction(priv_auction) => priv_auction.is_done(),
            _ => false,
        };
        assert(self@ =~~= (crate::game::view::GameView {
            round: old(self)@.round,
            ..before.with_player(seat as int, before.players[seat as int].buy_priv(lot, price as nat))
        }));
        if done {
            self.enter_first_stock_round();
        } else {
            proof {
                before.lemma_lot_sold_parts(old(self)@.auction(), lot, seat as int, price as nat);
            }
            self.advance_current_player();
        }
    }

    /// Buys the cheapest private company
    pub fn buy_cheapest_priv(&mut self)
        requires
            old(self)@.wf(),
            old(self)@.buy_cheapest_priv_allowed(),
        ensures
            final(self)@ == old(self)@.buy_cheapest_priv(),
            final(self)@.wf(),
    {
        proof {
            self@.lemma_buy_cheapest_priv();
            assert(self@.players[self.current_player as int].id == self.current_player);
        }
        let who: usize = self.current_player;
        let bought: Option<PrivComId> = match &mut self.round {
            RoundId::PrivAuction(priv_auction) => priv_auction.buy_current(&self.players[who]),
            _ => None,
        };
        match bought {
            Some(lot) => {
                self.priority_player = seat_following(who, 1, self.players.len());
                let ghost handed = crate::game::view::GameView {
                    priority_player: old(self)@.next_seat(),
                    ..old(self)@
                };
                proof {
                    let auction = old(self)@.auction();
                    assert(0 <= lot.index() < 6);
                    assert(auction.bids[who as int].len() == 6);
                    assert(auction.amount_at(who as int, lot.index()) <= auction.total_bids(who as int));
                    handed.lemma_same_ledger(old(self)@);
                }
                self.settle_sale(lot, who, lot.cost(), Ghost(handed));
            },
            None => {},
        }
    }
}

} // verus!
