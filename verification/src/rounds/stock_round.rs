//! The state of a stock round.

use crate::economy::player::Player;
use crate::ids::PubComId;
use vstd::prelude::*;

verus! {

/// The state of a stock round: whether the player whose turn it is has
/// sold shares, whether shares may be sold in this round, and which player
/// has sold shares of which public company in this turn.
#[verifier::ext_equal]
pub struct StockRoundView {
    pub action_performed: bool,
    pub sell_allowed: bool,
    pub pub_coms_sold: Set<(PubComId, usize)>,
}

impl StockRoundView {
    /// A stock round in which nothing has happened yet.
    pub open spec fn new(sell_allowed: bool) -> StockRoundView {
        StockRoundView { action_performed: false, sell_allowed, pub_coms_sold: Set::empty() }
    }

    /// The round after the player at seat `player` has sold shares of `pub_com`.
    pub open spec fn insert_pub_com_sold(self, pub_com: PubComId, player: usize) -> StockRoundView {
        StockRoundView { pub_coms_sold: self.pub_coms_sold.insert((pub_com, player)), ..self }
    }

    /// The round with the mark that the player whose turn it is has sold shares.
    pub open spec fn set_action_performed(self) -> StockRoundView {
        StockRoundView { action_performed: true, ..self }
    }

    /// The round without the mark that the player whose turn it is has sold shares.
    pub open spec fn unset_action_performed(self) -> StockRoundView {
        StockRoundView { action_performed: false, ..self }
    }

    /// The round when a turn has ended: nobody has sold shares in the new turn.
    pub open spec fn turn_ended(self) -> StockRoundView {
        StockRoundView { action_performed: false, pub_coms_sold: Set::empty(), ..self }
    }
}

/// Represents a stock round
#[derive(Clone, Debug)]
pub struct StockRound {
    action_performed: bool,
    sell_allowed: bool,
    pub_coms_sold: Vec<(PubComId, usize)>,
}

impl View for StockRound {
    type V = StockRoundView;

    closed spec fn view(&self) -> StockRoundView {
        StockRoundView {
            action_performed: self.action_performed,
            sell_allowed: self.sell_allowed,
            pub_coms_sold: self.pub_coms_sold@.to_set(),
        }
    }
}

impl StockRound {
    /// Returns a stock round in which nothing has happened yet
    pub fn new(sell_allowed: bool) -> (r: Self)
        ensures
            r@ == StockRoundView::new(sell_allowed),
    {
        let r = StockRound { action_performed: false, sell_allowed, pub_coms_sold: Vec::new() };
        assert(r@ =~= StockRoundView::new(sell_allowed));
        r
    }

    /// Returns whether `player` has sold shares of `pub_com` in this turn
    pub fn has_sold(&self, pub_com: PubComId, player: &Player) -> (b: bool)
        ensures
            b == self@.pub_coms_sold.contains((pub_com, player@.id as usize)),
    {
        let who: usize = player.id();
        let mut i: usize = 0;
        while i < self.pub_coms_sold.len()
            invariant
                i <= self.pub_coms_sold.len(),
                who == player@.id,
                forall|j: int| 0 <= j < i ==> self.pub_coms_sold@[j] != (pub_com, who),
            decreases self.pub_coms_sold.len() - i,
        {
            let entry = self.pub_coms_sold[i];
            if entry.0 == pub_com && entry.1 == who {
                assert(self.pub_coms_sold@[i as int] == (pub_com, who));
                return true;
            }
            i = i + 1;
        }
        false
    }

    /// Records that `player` has sold shares of `pub_com`
    pub fn insert_pub_com_sold(&mut self, pub_com: PubComId, player: &Player)
        ensures
            final(self)@ == old(self)@.insert_pub_com_sold(pub_com, player@.id as usize),
    {
        if !self.has_sold(pub_com, player) {
            proof {
                self.pub_coms_sold@.lemma_push_to_set_commute((pub_com, player@.id as usize));
            }
            self.pub_coms_sold.push((pub_com, player.id()));
        }
        assert(self@ =~= old(self)@.insert_pub_com_sold(pub_com, player@.id as usize));
    }

    /// Marks that the player whose turn it is has sold shares
    pub fn set_action_performed(&mut self)
        ensures
            final(self)@ == old(self)@.set_action_performed(),
    {
        self.action_performed = true;
    }

    /// Takes the mark that the player whose turn it is has sold shares away
    pub fn unset_action_performed(&mut self)
        ensures
            final(self)@ == old(self)@.unset_action_performed(),
    {
        self.action_performed = false;
    }

    /// Ends the turn: forgets what was sold in it
    pub fn end_turn(&mut self)
        ensures
            final(self)@ == old(self)@.turn_ended(),
    {
        self.action_performed = false;
        self.pub_coms_sold.clear();
        assert(self@ =~= old(self)@.turn_ended());
    }

    /// Returns whether the current player has performed an action
    pub fn action_performed(&self) -> (b: bool)
        ensures
            b == self@.action_performed,
    {
        self.action_performed
    }

    /// Returns whether selling shares is allowed in this `StockRound`
    pub fn sell_allowed(&self) -> (b: bool)
        ensures
            b == self@.sell_allowed,
    {
        self.sell_allowed
    }
}

} // verus!
