//! The moves of a game as values: which are legal in a state, what each
//! leads to, and what holds of every sequence of them.

use crate::game::view::GameView;
use crate::game::Game;
use crate::ids::{PrivComId, PubComId, RoundId, RoundView};
use vstd::prelude::*;

verus! {

/// A move of the player whose turn it is.
#[derive(Clone, Copy, Debug, PartialEq, Eq, Structural)]
pub enum Action {
    /// Bid an amount on a private company
    BidPriv(PrivComId, u32),
    /// Buy the cheapest private company at its face cost
    BuyCheapestPriv,
    /// Pass
    Pass,
    /// Buy a share of a public company from the initial offering
    BuyIpoShare(PubComId),
    /// Buy a share of a public company from the bank pool
    BuyPoolShare(PubComId),
    /// Buy the presidency of a public company at a par value
    BuyPresidency(PubComId, u32),
    /// Sell a number of shares of a public company
    SellShares(PubComId, u32),
    /// End the turn
    EndTurn,
}

impl GameView {
    /// Whether the player whose turn it is may make the move.
    pub open spec fn allowed(self, action: Action) -> bool {
        match action {
            Action::BidPriv(private, amount) => self.bid_priv_allowed(private, amount),
            Action::BuyCheapestPriv => self.buy_cheapest_priv_allowed(),
            Action::Pass => self.pass_allowed(),
            Action::BuyIpoShare(pub_com) => self.buy_ipo_share_allowed(pub_com),
            Action::BuyPoolShare(pub_com) => self.buy_pool_share_allowed(pub_com),
            Action::BuyPresidency(pub_com, par) => self.buy_presidency_allowed(pub_com, par),
            Action::SellShares(pub_com, count) => self.sell_shares_allowed(pub_com, count),
            Action::EndTurn => self.end_turn_allowed(),
        }
    }

    /// Whether the capital that the move gives to players is a number that
    /// the ledger can hold: the revenue that a pass makes the players
    /// collect, and what a seller gets for their shares.
    pub open spec fn fits(self, action: Action) -> bool {
        match action {
            Action::Pass => self.pass_fits(),
            Action::SellShares(pub_com, count) => self.actor().capital + self.proceeds(pub_com, count)
                <= u32::MAX,
            _ => true,
        }
    }

    /// The state after the move.
    pub open spec fn step(self, action: Action) -> GameView {
        match action {
            Action::BidPriv(private, amount) => self.bid_priv(private, amount),
            Action::BuyCheapestPriv => self.buy_cheapest_priv(),
            Action::Pass => self.pass(),
            Action::BuyIpoShare(pub_com) => self.buy_ipo_share(pub_com),
            Action::BuyPoolShare(pub_com) => self.buy_pool_share(pub_com),
            Action::BuyPresidency(pub_com, par) => self.buy_presidency(pub_com, par),
            Action::SellShares(pub_com, count) => self.sell_shares(pub_com, count),
            Action::EndTurn => self.end_turn(),
        }
    }

    /// The state after the move if it is legal and fits, else the state as it is.
    pub open spec fn perform(self, action: Action) -> GameView {
        if self.allowed(action) && self.fits(action) {
            self.step(action)
        } else {
            self
        }
    }

    /// The state after a sequence of moves, each made if it is legal and fits.
    pub open spec fn run(self, actions: Seq<Action>) -> GameView
        decreases actions.len(),
    {
        if actions.len() == 0 {
            self
        } else {
            self.run(actions.drop_last()).perform(actions.last())
        }
    }

    /// Every legal move leads from a state that a game can be in to
    /// another: of every company there are still 8 shares in all, and one
    /// holder has its president's certificate.
    pub proof fn lemma_step_wf(self, action: Action)
        requires
            self.wf(),
            self.allowed(action),
            self.fits(action),
        ensures
            self.step(action).wf(),
            self.step(action).ledger_balanced(),
    {
        match action {
            Action::BidPriv(private, amount) => {
                self.lemma_bid_priv(private, amount);
            },
            Action::BuyCheapestPriv => {
                self.lemma_buy_cheapest_priv();
            },
            Action::Pass => {
                self.lemma_pass();
            },
            Action::BuyIpoShare(pub_com) => {
                self.lemma_buy_ipo_share(pub_com);
            },
            Action::BuyPoolShare(pub_com) => {
                self.lemma_buy_pool_share(pub_com);
            },
            Action::BuyPresidency(pub_com, par) => {
                self.lemma_buy_presidency(pub_com, par);
            },
            Action::SellShares(pub_com, count) => {
                self.lemma_sell_shares(pub_com, count);
            },
            Action::EndTurn => {
                self.lemma_turn_ended();
            },
        }
    }

    /// Whatever moves are tried from the start of a game on, of every
    /// company there are 8 shares in all and one holder has its president's
    /// certificate.
    pub proof fn lemma_run_wf(self, actions: Seq<Action>)
        requires
            self.wf(),
        ensures
            self.run(actions).wf(),
            forall|c: PubComId|
                #![trigger self.run(actions).shares_total(c)]
                #![trigger self.run(actions).president_markers(c)]
                self.run(actions).shares_total(c) == 8 && self.run(actions).president_markers(c) == 1,
        decreases actions.len(),
    {
        if actions.len() > 0 {
            let before = self.run(actions.drop_last());
            self.lemma_run_wf(actions.drop_last());
            if before.allowed(actions.last()) && before.fits(actions.last()) {
                before.lemma_step_wf(actions.last());
            }
        }
    }

    /// Whether a sale takes the company's share value from `SOLD_OUT_VALUE`
    /// or above to below it, so that its shares count towards the
    /// certificate limit again.
    pub open spec fn sale_recounts(self, action: Action) -> bool {
        action matches Action::SellShares(pub_com, count) && !self.counts_towards_limit(pub_com)
            && self.sell_shares(pub_com, count).counts_towards_limit(pub_com)
    }

    /// After a purchase or the end of a turn the player who made the move
    /// is within the certificate limit.
    pub proof fn lemma_buyer_within_limit(self, action: Action)
        requires
            self.wf(),
            self.allowed(action),
            action is BuyIpoShare || action is BuyPoolShare || action is BuyPresidency || action is EndTurn,
        ensures
            self.step(action).within_limit(self.current_player as int),
    {
        match action {
            Action::BuyIpoShare(pub_com) => {
                self.lemma_buy_ipo_share(pub_com);
            },
            Action::BuyPoolShare(pub_com) => {
                self.lemma_buy_pool_share(pub_com);
            },
            Action::BuyPresidency(pub_com, par) => {
                self.lemma_buy_presidency(pub_com, par);
            },
            _ => {
                self.lemma_turn_ended();
            },
        }
    }

    /// A legal move leaves every player who was within the certificate
    /// limit within it, unless it is a sale that makes the company's shares
    /// count towards the limit again.
    pub proof fn lemma_step_within_limit(self, action: Action, seat: int)
        requires
            self.wf(),
            self.allowed(action),
            self.fits(action),
            0 <= seat < self.players.len(),
            self.within_limit(seat),
            !self.sale_recounts(action),
        ensures
            self.step(action).within_limit(seat),
    {
        match action {
            Action::BidPriv(private, amount) => {
                self.lemma_auction_keeps_shares(action);
            },
            Action::BuyCheapestPriv => {
                self.lemma_auction_keeps_shares(action);
            },
            Action::Pass => {
                self.lemma_pass_keeps_shares();
            },
            Action::BuyIpoShare(pub_com) => {
                self.lemma_buy_ipo_share(pub_com);
            },
            Action::BuyPoolShare(pub_com) => {
                self.lemma_buy_pool_share(pub_com);
            },
            Action::BuyPresidency(pub_com, par) => {
                self.lemma_buy_presidency(pub_com, par);
            },
            Action::SellShares(pub_com, count) => {
                self.lemma_sell_shares(pub_com, count);
            },
            Action::EndTurn => {
                self.lemma_turn_ended();
            },
        }
    }
}

/// What the private auction reads and changes of a game: the round, whose
/// turn it is, who has priority deal, and each player's capital and private
/// companies, by seat.
#[verifier::ext_equal]
pub struct AuctionSide {
    pub round: RoundView,
    pub current_player: nat,
    pub priority_player: nat,
    pub capital: Seq<nat>,
    pub priv_coms: Seq<Seq<bool>>,
}

impl GameView {
    /// What the private auction reads and changes of this state.
    pub open spec fn auction_side(self) -> AuctionSide {
        AuctionSide {
            round: self.round,
            current_player: self.current_player,
            priority_player: self.priority_player,
            capital: Seq::new(self.players.len(), |p: int| self.players[p].capital),
            priv_coms: Seq::new(self.players.len(), |p: int| self.players[p].priv_coms),
        }
    }

    /// The state after the move if the private auction is on, the move is
    /// a bid, the purchase of the cheapest private company or a pass, and
    /// it is legal and fits; else the state as it is.
    pub open spec fn perform_in_auction(self, action: Action) -> GameView {
        if self.round is PrivAuction && (action is BidPriv || action is BuyCheapestPriv || action is Pass) {
            self.perform(action)
        } else {
            self
        }
    }

    /// The state after a sequence of moves in the private auction.
    pub open spec fn run_auction(self, actions: Seq<Action>) -> GameView
        decreases actions.len(),
    {
        if actions.len() == 0 {
            self
        } else {
            self.run_auction(actions.drop_last()).perform_in_auction(actions.last())
        }
    }

    /// Two states that are alike in what the auction reads have as many
    /// players, with the same capital, private companies and income.
    pub proof fn lemma_side(self, other: GameView)
        requires
            self.auction_side() == other.auction_side(),
        ensures
            self.round == other.round,
            self.current_player == other.current_player,
            self.priority_player == other.priority_player,
            self.players.len() == other.players.len(),
            self.next_seat() == other.next_seat(),
            self.revenue_fits() == other.revenue_fits(),
            forall|p: int|
                0 <= p < self.players.len() ==> (#[trigger] self.players[p]).capital
                    == other.players[p].capital && self.players[p].priv_coms == other.players[p].priv_coms
                    && self.players[p].income() == other.players[p].income(),
    {
        let n = self.players.len();
        assert(self.auction_side().capital.len() == n);
        assert(other.auction_side().capital.len() == other.players.len());
        assert(other.players.len() == n);
        assert forall|p: int| 0 <= p < n implies (#[trigger] self.players[p]).capital
            == other.players[p].capital && self.players[p].priv_coms == other.players[p].priv_coms
            && self.players[p].income() == other.players[p].income() by {
            assert(self.auction_side().capital[p] == self.players[p].capital);
            assert(other.auction_side().capital[p] == other.players[p].capital);
            assert(self.auction_side().priv_coms[p] == self.players[p].priv_coms);
            assert(other.auction_side().priv_coms[p] == other.players[p].priv_coms);
            assert(self.players[p].priv_coms == other.players[p].priv_coms);
            assert forall|i: int| 0 <= i < 6 implies self.players[p].income_at(i) == other.players[p].income_at(
                i,
            ) by {}
        }
        if self.revenue_fits() {
            assert forall|p: int| 0 <= p < n implies (#[trigger] other.players[p]).capital
                + other.players[p].income() <= u32::MAX by {
                assert(self.players[p].capital + self.players[p].income() <= u32::MAX);
            }
        }
        if other.revenue_fits() {
            assert forall|p: int| 0 <= p < n implies (#[trigger] self.players[p]).capital
                + self.players[p].income() <= u32::MAX by {
                assert(other.players[p].capital + other.players[p].income() <= u32::MAX);
            }
        }
    }

    /// Two states that are alike in what the auction reads are alike in it
    /// with another round, after the turn has moved on in the auction, and
    /// after the players have collected the revenue of their private companies.
    pub proof fn lemma_side_parts(self, other: GameView, round: RoundView)
        requires
            self.auction_side() == other.auction_side(),
        ensures
            (GameView { round, ..self }).auction_side() == (GameView { round, ..other }).auction_side(),
            self.advance_in_auction().auction_side() == other.advance_in_auction().auction_side(),
            self.operate_priv_coms().auction_side() == other.operate_priv_coms().auction_side(),
            (GameView { priority_player: self.next_seat(), ..self }).auction_side() == (GameView {
                priority_player: other.next_seat(),
                ..other
            }).auction_side(),
    {
        self.lemma_side(other);
        assert((GameView { round, ..self }).auction_side() =~~= (GameView { round, ..other }).auction_side());
        assert(self.advance_in_auction().auction_side() =~~= other.advance_in_auction().auction_side());
        assert(self.operate_priv_coms().auction_side() =~~= other.operate_priv_coms().auction_side());
        assert((GameView { priority_player: self.next_seat(), ..self }).auction_side() =~~= (GameView {
            priority_player: other.next_seat(),
            ..other
        }).auction_side());
    }

    /// Two states that are alike in what the auction reads are alike in it
    /// after the same sale of a private company.
    pub proof fn lemma_side_lot_sold(
        self,
        other: GameView,
        auction: crate::rounds::priv_auction::AuctionView,
        lot: PrivComId,
        seat: int,
        price: nat,
    )
        requires
            self.auction_side() == other.auction_side(),
            0 <= seat < self.players.len(),
        ensures
            self.lot_sold(auction, lot, seat, price).auction_side() == other.lot_sold(
                auction,
                lot,
                seat,
                price,
            ).auction_side(),
    {
        self.lemma_side(other);
        let a = GameView {
            round: RoundView::PrivAuction(auction),
            ..self.with_player(seat, self.players[seat].buy_priv(lot, price))
        };
        let b = GameView {
            round: RoundView::PrivAuction(auction),
            ..other.with_player(seat, other.players[seat].buy_priv(lot, price))
        };
        assert(self.players[seat].capital == other.players[seat].capital);
        assert(self.players[seat].priv_coms == other.players[seat].priv_coms);
        assert(a.players.len() == b.players.len());
        assert forall|p: int| 0 <= p < a.players.len() implies (#[trigger] a.players[p]).capital
            == b.players[p].capital && a.players[p].priv_coms == b.players[p].priv_coms by {
            assert(self.players[p].capital == other.players[p].capital);
        }
        assert(a.auction_side() =~~= b.auction_side());
        a.lemma_side_parts(b, a.round);
        if auction.current is None {
            assert(a.enter_first_stock_round().auction_side() =~~= b.enter_first_stock_round().auction_side());
        }
    }

    /// What a move in the private auction leads to depends on nothing but
    /// what the auction reads: two states that are alike in that are alike
    /// in it after the move.
    pub proof fn lemma_auction_move_deterministic(self, other: GameView, action: Action)
        requires
            self.wf(),
            other.wf(),
            self.auction_side() == other.auction_side(),
        ensures
            self.perform_in_auction(action).auction_side() == other.perform_in_auction(
                action,
            ).auction_side(),
    {
        self.lemma_side(other);
        if self.round is PrivAuction {
            let auction = self.auction();
            let who = self.current_player as int;
            assert(self.actor().capital == other.actor().capital);
            match action {
                Action::BidPriv(private, amount) => {
                    let round = RoundView::PrivAuction(auction.place_bid(who, private, amount));
                    self.lemma_side_parts(other, round);
                    (GameView { round, ..self }).lemma_side_parts(GameView { round, ..other }, round);
                },
                Action::BuyCheapestPriv => {
                    let lot = auction.current->Some_0;
                    self.lemma_side_parts(other, self.round);
                    (GameView { priority_player: self.next_seat(), ..self }).lemma_side_lot_sold(
                        GameView { priority_player: other.next_seat(), ..other },
                        auction.buy_current(),
                        lot,
                        who,
                        lot.spec_cost(),
                    );
                },
                Action::Pass => {
                    let lot = auction.current->Some_0;
                    if auction.in_auction(lot) {
                        auction.withdraw(who, lot).lemma_only_bid(lot);
                        match auction.sale_on_pass(who) {
                            Some(sale) => {
                                self.lemma_side_lot_sold(
                                    other,
                                    auction.pass_auction(who),
                                    sale.0,
                                    sale.1 as int,
                                    sale.2 as nat,
                                );
                            },
                            None => {
                                let round = RoundView::PrivAuction(auction.pass_auction(who));
                                self.lemma_side_parts(other, round);
                                (GameView { round, ..self }).lemma_side_parts(
                                    GameView { round, ..other },
                                    round,
                                );
                            },
                        }
                    } else {
                        let round = RoundView::PrivAuction(auction.pass_current(self.players.len()));
                        self.lemma_side_parts(other, round);
                        let a = GameView { round, ..self };
                        let b = GameView { round, ..other };
                        a.lemma_side_parts(b, round);
                        a.operate_priv_coms().lemma_side_parts(b.operate_priv_coms(), round);
                    }
                },
                _ => {},
            }
        }
    }

    /// Who owns which private company, and at what price, after a sequence
    /// of moves in the private auction depends on nothing but the moves and
    /// what the auction read at the start.
    pub proof fn lemma_auction_deterministic(self, other: GameView, actions: Seq<Action>)
        requires
            self.wf(),
            other.wf(),
            self.auction_side() == other.auction_side(),
        ensures
            self.run_auction(actions).auction_side() == other.run_auction(actions).auction_side(),
            self.run_auction(actions).wf(),
            other.run_auction(actions).wf(),
        decreases actions.len(),
    {
        if actions.len() > 0 {
            self.lemma_auction_deterministic(other, actions.drop_last());
            let a = self.run_auction(actions.drop_last());
            let b = other.run_auction(actions.drop_last());
            if a.allowed(actions.last()) && a.fits(actions.last()) {
                a.lemma_step_wf(actions.last());
            }
            if b.allowed(actions.last()) && b.fits(actions.last()) {
                b.lemma_step_wf(actions.last());
            }
            self.run_auction(actions.drop_last()).lemma_auction_move_deterministic(
                other.run_auction(actions.drop_last()),
                actions.last(),
            );
        }
    }
}

impl Game {
    /// Returns whether the current player may make the move
    pub fn allowed(&self, action: Action) -> (b: bool)
        requires
            self@.wf(),
        ensures
            b == self@.allowed(action),
    {
        match action {
            Action::BidPriv(private, amount) => self.bid_priv_allowed(private, amount),
            Action::BuyCheapestPriv => self.buy_cheapest_priv_allowed(),
            Action::Pass => self.pass_allowed(),
            Action::BuyIpoShare(pub_com) => self.buy_ipo_share_allowed(pub_com),
            Action::BuyPoolShare(pub_com) => self.buy_pool_share_allowed(pub_com),
            Action::BuyPresidency(pub_com, par) => self.buy_presidency_allowed(pub_com, par),
            Action::SellShares(pub_com, count) => self.sell_shares_allowed(pub_com, count),
            Action::EndTurn => self.end_turn_allowed(),
        }
    }

    /// Returns whether every player's capital and the revenue of their
    /// private companies together are a number that the ledger can hold
    pub fn revenue_fits(&self) -> (b: bool)
        ensures
            b == self@.revenue_fits(),
    {
        let mut i: usize = 0;
        while i < self.players.len()
            invariant
                i <= self.players.len(),
                forall|p: int|
                    0 <= p < i ==> (#[trigger] self@.players[p]).capital + self@.players[p].income()
                        <= u32::MAX,
            decreases self.players.len() - i,
        {
            let player = self.players[i].checked();
            if player.capital() as u64 + player.income() as u64 > u32::MAX as u64 {
                assert(self@.players[i as int].capital + self@.players[i as int].income() > u32::MAX);
                return false;
            }
            i = i + 1;
        }
        true
    }

    /// Returns whether the capital that a legal move gives to players is
    /// a number that the ledger can hold
    pub fn fits(&self, action: Action) -> (b: bool)
        requires
            self@.wf(),
            self@.allowed(action),
        ensures
            b == self@.fits(action),
    {
        match action {
            Action::Pass => {
                let count: usize = self.players.len();
                match &self.round {
                    RoundId::PrivAuction(priv_auction) => {
                        let collects: bool = match priv_auction.current() {
                            Some(PrivComId::DAndR(_)) => false,
                            Some(lot) => !priv_auction.lot_in_auction(lot) && priv_auction.passes() + 1
                                == count,
                            None => false,
                        };
                        !collects || self.revenue_fits()
                    },
                    RoundId::StockRound(_) => self.passes + 1 != count || self.revenue_fits(),
                    _ => true,
                }
            },
            Action::SellShares(pub_com, count) => {
                match self.stock_chart.value(pub_com) {
                    Some(value) => {
                        assert(count <= 5);
                        assert(value * count <= 5 * 0xffff_ffff) by (nonlinear_arith)
                            requires
                                count <= 5,
                                value <= 0xffff_ffff,
                        ;
                        let proceeds: u64 = (value as u64) * (count as u64);
                        self.players[self.current_player].capital() as u64 + proceeds <= u32::MAX as u64
                    },
                    None => false,
                }
            },
            _ => true,
        }
    }

    /// Makes the move if it is legal and what it gives to players fits
    /// into the ledger, and returns whether it was made
    pub fn perform(&mut self, action: Action) -> (done: bool)
        requires
            old(self)@.wf(),
        ensures
            done == (old(self)@.allowed(action) && old(self)@.fits(action)),
            final(self)@ == old(self)@.perform(action),
            final(self)@.wf(),
    {
        if !self.allowed(action) {
            return false;
        }
        if !self.fits(action) {
            return false;
        }
        match action {
            Action::BidPriv(private, amount) => self.bid_priv(private, amount),
            Action::BuyCheapestPriv => self.buy_cheapest_priv(),
            Action::Pass => self.pass(),
            Action::BuyIpoShare(pub_com) => self.buy_ipo_share(pub_com),
            Action::BuyPoolShare(pub_com) => self.buy_pool_share(pub_com),
            Action::BuyPresidency(pub_com, par) => self.buy_presidency(pub_com, par),
            Action::SellShares(pub_com, count) => self.sell_shares(pub_com, count),
            Action::EndTurn => self.end_turn(),
        }
        true
    }
}

} // verus!
