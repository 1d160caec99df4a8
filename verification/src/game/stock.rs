//! The moves of a stock round: buying and selling shares, and ending a turn.

use crate::economy::pub_com::PubCom;
use crate::economy::shares::Shares;
use crate::game::view::SOLD_OUT_VALUE;
use crate::game::Game;
use crate::ids::{PubComId, RoundId};
use crate::rounds::priv_auction::seat_following;
use vstd::prelude::*;

verus! {

impl Game {
    /// Returns whether this `Game` is in a stock round
    pub fn in_stock_round(&self) -> (b: bool)
        ensures
            b == (self@.round is StockRound),
    {
        match &self.round {
            RoundId::StockRound(_) => true,
            _ => false,
        }
    }

    /// Ends the turn of the current player, whatever they have done in it
    fn finish_turn(&mut self)
        requires
            old(self)@.wf(),
            old(self)@.round is StockRound,
        ensures
            final(self)@ == old(self)@.turn_ended(),
            final(self)@.wf(),
    {
        proof {
            self@.lemma_turn_ended();
        }
        match &mut self.round {
            RoundId::StockRound(stock_round) => {
                stock_round.end_turn();
            },
            _ => {},
        }
        self.passes = 0;
        self.current_player = seat_following(self.current_player, 1, self.players.len());
        assert(self@ =~~= old(self)@.turn_ended());
    }

    /// Returns whether the current player would be within the certificate
    /// limit with `count` more shares of `pub_com`
    fn within_limit_with(&self, pub_com: PubComId, count: u32) -> (b: bool)
        requires
            self@.wf(),
            self@.actor().shares.count(pub_com) + count <= 8,
        ensures
            b == (self@.certificate_count(self@.actor().shares.add_shares(pub_com, count as nat))
                <= self@.certificate_limit()),
    {
        let mut shares: Shares = *self.players[self.current_player].shares();
        shares.add_shares(pub_com, count);
        self.certificates(&shares) <= self.certificate_limit()
    }

    /// Returns whether the current player may buy shares of `pub_com` as
    /// far as sales go, in a stock round
    fn buy_back_allowed(&self, pub_com: PubComId) -> (b: bool)
        requires
            self@.wf(),
        ensures
            self@.round is StockRound ==> b == self@.buy_back_allowed(pub_com),
    {
        assert(self@.players[self.current_player as int].id == self.current_player);
        match &self.round {
            RoundId::StockRound(stock_round) => !(self.buy_back_blocked && stock_round.has_sold(
                pub_com,
                &self.players[self.current_player],
            )),
            _ => true,
        }
    }

    /// Returns whether buying a share of `pub_com` from the IPO is allowed
    pub fn buy_ipo_share_allowed(&self, pub_com: PubComId) -> (b: bool)
        requires
            self@.wf(),
        ensures
            b == self@.buy_ipo_share_allowed(pub_com),
    {
        if !self.in_stock_round() || !self.buy_back_allowed(pub_com) {
            return false;
        }
        match self.par_track.value(pub_com) {
            Some(par) => {
                let current_player = &self.players[self.current_player];
                self.ipo.count(pub_com) > 0 && current_player.shares().count(pub_com) < 6
                    && self.within_limit_with(pub_com, 1) && current_player.capital() >= par
            },
            None => false,
        }
    }

    /// Buys a share of `pub_com` from the IPO
    pub fn buy_ipo_share(&mut self, pub_com: PubComId)
        requires
            old(self)@.wf(),
            old(self)@.buy_ipo_share_allowed(pub_com),
        ensures
            final(self)@ == old(self)@.buy_ipo_share(pub_com),
            final(self)@.wf(),
            final(self)@.within_limit(old(self)@.current_player as int),
    {
        let who: usize = self.current_player;
        let par: u32 = match self.par_track.value(pub_com) {
            Some(par) => par,
            None => 0,
        };
        proof {
            self@.lemma_ipo_share_taken(pub_com);
            self@.ipo_share_taken(pub_com, par as nat).lemma_update_president(pub_com);
            self@.ipo_share_taken(pub_com, par as nat).update_president(pub_com).lemma_floated(
                pub_com,
                par as nat,
            );
            self@.ipo_share_taken(pub_com, par as nat).update_president(pub_com).floated(
                pub_com,
                par as nat,
            ).lemma_turn_ended();
            assert(self@.par_track.values.contains(par)) by {
                crate::game::view::GameView::lemma_index(pub_com, pub_com);
            }
        }
        self.ipo.remove_shares(pub_com, 1);
        self.players[who].shares_mut().add_shares(pub_com, 1);
        self.players[who].remove_capital(par);
        assert(self@ =~~= old(self)@.ipo_share_taken(pub_com, par as nat));
        self.update_president(pub_com);
        if self.ipo.count(pub_com) < 5 && self.pub_coms[pub_com.ordinal()].is_none() {
            assert(par <= 95);
            self.pub_coms.set(pub_com.ordinal(), Some(PubCom::new(pub_com, 10 * par)));
            self.map.place_home_station(pub_com);
        }
        assert(self@ =~~= old(self)@.ipo_share_taken(pub_com, par as nat).update_president(pub_com).floated(
            pub_com,
            par as nat,
        ));
        self.finish_turn();
    }

    /// Returns whether buying a share of `pub_com` from the bank pool is allowed
    pub fn buy_pool_share_allowed(&self, pub_com: PubComId) -> (b: bool)
        requires
            self@.wf(),
        ensures
            b == self@.buy_pool_share_allowed(pub_com),
    {
        if !self.in_stock_round() || !self.buy_back_allowed(pub_com) {
            return false;
        }
        match self.stock_chart.value(pub_com) {
            Some(value) => {
                let current_player = &self.players[self.current_player];
                self.pool.count(pub_com) > 0 && current_player.shares().count(pub_com) < 6
                    && self.within_limit_with(pub_com, 1) && current_player.capital() >= value
            },
            None => false,
        }
    }

    /// Buys a share of `pub_com` from the bank pool
    pub fn buy_pool_share(&mut self, pub_com: PubComId)
        requires
            old(self)@.wf(),
            old(self)@.buy_pool_share_allowed(pub_com),
        ensures
            final(self)@ == old(self)@.buy_pool_share(pub_com),
            final(self)@.wf(),
            final(self)@.within_limit(old(self)@.current_player as int),
    {
        let who: usize = self.current_player;
        let value: u32 = match self.stock_chart.value(pub_com) {
            Some(value) => value,
            None => 0,
        };
        proof {
            self@.lemma_pool_share_taken(pub_com);
            self@.pool_share_taken(pub_com, value as nat).lemma_update_president(pub_com);
            self@.pool_share_taken(pub_com, value as nat).update_president(pub_com).lemma_turn_ended();
        }
        self.pool.remove_shares(pub_com, 1);
        self.players[who].shares_mut().add_shares(pub_com, 1);
        self.players[who].remove_capital(value);
        assert(self@ =~~= old(self)@.pool_share_taken(pub_com, value as nat));
        self.update_president(pub_com);
        self.finish_turn();
    }

    /// Returns whether buying the presidency of `pub_com`, setting the par value to `par` is allowed
    pub fn buy_presidency_allowed(&self, pub_com: PubComId, par: u32) -> (b: bool)
        requires
            self@.wf(),
        ensures
            b == self@.buy_presidency_allowed(pub_com, par),
    {
        if !self.in_stock_round() {
            return false;
        }
        if !self.par_track.offers(par) || !self.ipo.president(pub_com) {
            return false;
        }
        proof {
            self@.lemma_presidency_certificates(pub_com, par);
        }
        let current_player = &self.players[self.current_player];
        let counted: u32 = match self.stock_chart.start_value(par) {
            Some(value) => if value < SOLD_OUT_VALUE {
                2
            } else {
                0
            },
            None => 0,
        };
        self.certificate_count(current_player) + counted <= self.certificate_limit()
            && current_player.capital() as u64 >= 2 * (par as u64)
    }

    /// Buys the presidency of `pub_com`, setting the par value to `par`
    pub fn buy_presidency(&mut self, pub_com: PubComId, par: u32)
        requires
            old(self)@.wf(),
            old(self)@.buy_presidency_allowed(pub_com, par),
        ensures
            final(self)@ == old(self)@.buy_presidency(pub_com, par),
            final(self)@.wf(),
            final(self)@.within_limit(old(self)@.current_player as int),
    {
        let who: usize = self.current_player;
        proof {
            self@.lemma_presidency_taken(pub_com, par);
            self@.lemma_unsold(pub_com);
            self@.presidency_taken(pub_com, par).lemma_turn_ended();
            self@.par_track.lemma_add_token(pub_com, par as nat);
            assert(self@.players[who as int].wf());
            assert(self@.shares_at(who as int, pub_com) == 0);
        }
        self.ipo.remove_shares(pub_com, 2);
        self.ipo.remove_president(pub_com);
        self.players[who].shares_mut().add_shares(pub_com, 2);
        self.players[who].shares_mut().add_president(pub_com);
        self.players[who].remove_capital(par * 2);
        self.par_track.add_token(pub_com, par);
        self.stock_chart.add_token(pub_com, par);
        assert(self@ =~~= old(self)@.presidency_taken(pub_com, par));
        self.finish_turn();
    }

    /// Returns whether ending the turn is allowed
    pub fn end_turn_allowed(&self) -> (b: bool)
        requires
            self@.wf(),
        ensures
            b == self@.end_turn_allowed(),
    {
        match &self.round {
            RoundId::StockRound(stock_round) => {
                stock_round.action_performed() && self.certificate_count(&self.players[self.current_player])
                    <= self.certificate_limit()
            },
            _ => false,
        }
    }

    /// Ends the turn
    pub fn end_turn(&mut self)
        requires
            old(self)@.wf(),
            old(self)@.end_turn_allowed(),
        ensures
            final(self)@ == old(self)@.end_turn(),
            final(self)@.wf(),
            final(self)@.within_limit(old(self)@.current_player as int),
    {
        proof {
            self@.lemma_turn_ended();
        }
        self.finish_turn();
    }

    /// Returns whether a player other than the current one has 2 or more shares of `pub_com`
    fn other_holds_two(&self, pub_com: PubComId) -> (b: bool)
        requires
            self@.wf(),
        ensures
            b == self@.other_holds_two(pub_com),
    {
        let mut i: usize = 0;
        while i < self.players.len()
            invariant
                i <= self.players.len(),
                forall|p: int|
                    0 <= p < i && p != self@.current_player ==> (#[trigger] self@.players[p]).shares.count(
                        pub_com,
                    ) < 2,
            decreases self.players.len() - i,
        {
            if i != self.current_player && self.players[i].shares().count(pub_com) >= 2 {
                assert(self@.players[i as int].shares.count(pub_com) >= 2);
                return true;
            }
            i = i + 1;
        }
        false
    }

    /// Returns whether selling `count` shares of `pub_com` is allowed
    pub fn sell_shares_allowed(&self, pub_com: PubComId, count: u32) -> (b: bool)
        requires
            self@.wf(),
        ensures
            b == self@.sell_shares_allowed(pub_com, count),
    {
        match &self.round {
            RoundId::StockRound(stock_round) => {
                let current_player = &self.players[self.current_player];
                let owned_count: u32 = current_player.shares().count(pub_com);
                let president: bool = current_player.shares().president(pub_com);
                (!president || owned_count as u64 >= count as u64 + 2 || self.other_holds_two(pub_com))
                    && count as u64 + self.pool.count(pub_com) as u64 <= 5 && owned_count >= count
                    && self.stock_chart.value(pub_com).is_some() && stock_round.sell_allowed()
            },
            _ => false,
        }
    }

    /// Sells `count` shares of `pub_com`
    pub fn sell_shares(&mut self, pub_com: PubComId, count: u32)
        requires
            old(self)@.wf(),
            old(self)@.sell_shares_allowed(pub_com, count),
            old(self)@.actor().capital + old(self)@.proceeds(pub_com, count) <= u32::MAX,
        ensures
            final(self)@ == old(self)@.sell_shares(pub_com, count),
            final(self)@.wf(),
    {
        let who: usize = self.current_player;
        let value: u32 = match self.stock_chart.value(pub_com) {
            Some(value) => value,
            None => 0,
        };
        proof {
            self@.lemma_shares_sold(pub_com, count);
            assert(self@.players[who as int].wf());
            assert(self@.pool.wf());
        }
        match &mut self.round {
            RoundId::StockRound(stock_round) => {
                stock_round.set_action_performed();
                stock_round.insert_pub_com_sold(pub_com, &self.players[who]);
            },
            _ => {},
        }
        self.players[who].shares_mut().remove_shares(pub_com, count);
        self.pool.add_shares(pub_com, count);
        self.players[who].add_capital(value * count);
        self.stock_chart.move_down(pub_com, count as usize);
        assert(self@ =~~= old(self)@.shares_sold(pub_com, count));
        self.update_president(pub_com);
    }
}

} // verus!
