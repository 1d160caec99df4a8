//! The game: the players, the round that is being played, whose turn it is,
//! and the ledger of capital, shares and presidencies.

pub mod action;
pub mod auction;
pub mod invariants;
pub mod ledger;
pub mod stock;
pub mod view;

pub use action::Action;
pub use ledger::Ledger;
pub use view::GameView;

use crate::economy::par_track::ParTrack;
use crate::economy::player::Player;
use crate::economy::pub_com::{PubCom, PubComView};
use crate::economy::shares::Shares;
use crate::economy::stock_chart::StockChart;
use crate::game::view::{BANK_CAPITAL, SOLD_OUT_VALUE};
use crate::geography::map::GameMap;
use crate::geography::tile_set::TileSet;
use crate::train_set::TrainSet;
use crate::ids::{PhaseId, PrivComId, PubComId, RoundId, RoundView};
use crate::rounds::operating_round::OperatingRound;
use crate::rounds::priv_auction::{seat_following, PrivAuction};
use crate::rounds::stock_round::StockRound;
use vstd::prelude::*;

verus! {

/// Represents a game
#[derive(Debug)]
pub struct Game {
    round: RoundId,
    phase: PhaseId,
    players: Vec<Player>,
    current_player: usize,
    priority_player: usize,
    passes: usize,
    pub_coms: Vec<Option<PubCom>>,
    map: GameMap,
    tile_set: TileSet,
    train_set: TrainSet,
    stock_chart: StockChart,
    par_track: ParTrack,
    ipo: Shares,
    pool: Shares,
    buy_back_blocked: bool,
}

impl View for Game {
    type V = GameView;

    closed spec fn view(&self) -> GameView {
        GameView {
            round: self.round@,
            phase: self.phase,
            players: Seq::new(self.players@.len(), |p: int| self.players@[p]@),
            current_player: self.current_player as nat,
            priority_player: self.priority_player as nat,
            passes: self.passes as nat,
            pub_coms: Seq::new(
                self.pub_coms@.len(),
                |i: int|
                    match self.pub_coms@[i] {
                        Some(pub_com) => Some(pub_com@),
                        None => None,
                    },
            ),
            map: self.map@,
            tile_set: self.tile_set@,
            train_set: self.train_set@,
            stock_chart: self.stock_chart@,
            par_track: self.par_track@,
            ipo: self.ipo@,
            pool: self.pool@,
            buy_back_blocked: self.buy_back_blocked,
        }
    }
}

impl Game {
    /// Returns a game of `player_count` players at its start: the auction
    /// of the private companies begins, the players share the bank's capital
    /// out among them, and every share is in the initial offering
    pub fn new(
        player_count: usize,
        map: GameMap,
        tile_set: TileSet,
        train_set: TrainSet,
        stock_chart: StockChart,
        par_track: ParTrack,
    ) -> (r: Self)
        requires
            2 <= player_count <= 6,
            map@.wf(),
            stock_chart@.wf(),
            stock_chart@.has_no_token(),
            par_track@.wf(),
            par_track@.has_no_token(),
        ensures
            r@ == GameView::new(
                player_count as nat,
                map@,
                tile_set@,
                train_set@,
                stock_chart@,
                par_track@,
            ),
            r@.wf(),
    {
        let mut players: Vec<Player> = Vec::new();
        let share: u32 = BANK_CAPITAL / (player_count as u32);
        let mut id: usize = 0;
        while id < player_count
            invariant
                id <= player_count <= 6,
                players@.len() == id,
                share == BANK_CAPITAL as nat / (player_count as nat),
                forall|p: int|
                    0 <= p < id ==> (#[trigger] players@[p])@ == crate::economy::player::PlayerView::new(
                        p as nat,
                        share as nat,
                    ) && players@[p]@.wf(),
            decreases player_count - id,
        {
            players.push(Player::new(id, share));
            id = id + 1;
        }
        let mut pub_coms: Vec<Option<PubCom>> = Vec::new();
        let mut i: usize = 0;
        while i < 8
            invariant
                i <= 8,
                pub_coms@.len() == i,
                forall|k: int| 0 <= k < i ==> (#[trigger] pub_coms@[k]) is None,
            decreases 8 - i,
        {
            pub_coms.push(None);
            i = i + 1;
        }
        let r = Game {
            round: RoundId::PrivAuction(PrivAuction::new(player_count)),
            phase: PhaseId::Phase2,
            players,
            current_player: 0,
            priority_player: 0,
            passes: 0,
            pub_coms,
            map,
            tile_set,
            train_set,
            stock_chart,
            par_track,
            ipo: Shares::ipo_shares(),
            pool: Shares::empty_shares(),
            buy_back_blocked: false,
        };
        proof {
            assert(r@ =~~= GameView::new(
                player_count as nat,
                map@,
                tile_set@,
                train_set@,
                stock_chart@,
                par_track@,
            ));
            GameView::lemma_new_wf(
                player_count as nat,
                map@,
                tile_set@,
                train_set@,
                stock_chart@,
                par_track@,
            );
        }
        r
    }

    /// Returns the current player of this `Game`
    pub fn current_player(&self) -> (r: usize)
        ensures
            r == self@.current_player,
    {
        self.current_player
    }

    /// Returns the player at `seat`
    pub fn player(&self, seat: usize) -> (r: &Player)
        requires
            seat < self@.players.len(),
        ensures
            r@ == self@.players[seat as int],
    {
        &self.players[seat]
    }

    /// Returns the number of players of this `Game`
    pub fn player_count(&self) -> (r: usize)
        ensures
            r == self@.players.len(),
    {
        self.players.len()
    }

    /// Returns the round that this `Game` is in
    pub fn round(&self) -> (r: &RoundId)
        ensures
            r@ == self@.round,
    {
        &self.round
    }

    /// Returns the shares in the initial offering
    pub fn ipo(&self) -> (r: &Shares)
        ensures
            r@ == self@.ipo,
    {
        &self.ipo
    }

    /// Returns the shares in the bank pool
    pub fn pool(&self) -> (r: &Shares)
        ensures
            r@ == self@.pool,
    {
        &self.pool
    }

    /// Returns the map of this `Game`
    pub fn map(&self) -> (r: &GameMap)
        ensures
            r@ == self@.map,
    {
        &self.map
    }

    /// Returns the tiles of this `Game`
    pub fn tile_set(&self) -> (r: &TileSet)
        ensures
            r@ == self@.tile_set,
    {
        &self.tile_set
    }

    /// Returns the trains of this `Game`
    pub fn train_set(&self) -> (r: &TrainSet)
        ensures
            r@ == self@.train_set,
    {
        &self.train_set
    }

    /// Returns the stock chart of this `Game`
    pub fn stock_chart(&self) -> (r: &StockChart)
        ensures
            r@ == self@.stock_chart,
    {
        &self.stock_chart
    }

    /// Returns the par track of this `Game`
    pub fn par_track(&self) -> (r: &ParTrack)
        ensures
            r@ == self@.par_track,
    {
        &self.par_track
    }

    /// Returns the public company `pub_com` if it has floated
    pub fn pub_com(&self, pub_com: PubComId) -> (r: Option<PubCom>)
        requires
            self@.wf(),
        ensures
            r is Some <==> self@.pub_coms[pub_com.index()] is Some,
            r matches Some(floated) ==> Some(floated@) == self@.pub_coms[pub_com.index()],
    {
        self.pub_coms[pub_com.ordinal()]
    }

    /// Returns whether a player who has sold shares of a company in a
    /// turn is kept from buying shares of it in the same turn
    pub fn buy_back_blocked(&self) -> (b: bool)
        ensures
            b == self@.buy_back_blocked,
    {
        self.buy_back_blocked
    }

    /// Sets whether a player who has sold shares of a company in a turn
    /// is kept from buying shares of it in the same turn
    pub fn set_buy_back_blocked(&mut self, blocked: bool)
        requires
            old(self)@.wf(),
        ensures
            final(self)@ == (GameView { buy_back_blocked: blocked, ..old(self)@ }),
            final(self)@.wf(),
    {
        proof {
            self@.lemma_policy(blocked);
        }
        self.buy_back_blocked = blocked;
    }

    /// Returns the player with priority deal
    pub fn priority_player(&self) -> (r: usize)
        ensures
            r == self@.priority_player,
    {
        self.priority_player
    }

    /// Returns the president of `pub_com` in this `Game`, if any
    pub fn president(&self, pub_com: PubComId) -> (r: Option<usize>)
        requires
            self@.players.len() <= 6,
        ensures
            r == self@.president(pub_com),
            r matches Some(p) ==> p < self@.players.len() && self@.players[p as int].shares.president(
                pub_com,
            ),
    {
        let mut i: usize = 0;
        while i < self.players.len()
            invariant
                i <= self.players.len() <= 6,
                forall|q: int| 0 <= q < i ==> self@.marker_at(q, pub_com) == 0,
            decreases self.players.len() - i,
        {
            if self.players[i].shares().president(pub_com) {
                assert(self@.marker_at(i as int, pub_com) == 1);
                return Some(i);
            }
            assert(self@.marker_at(i as int, pub_com) == 0);
            i = i + 1;
        }
        None
    }

    /// Returns the certificate limit of this `Game`
    pub fn certificate_limit(&self) -> (r: u32)
        requires
            2 <= self@.players.len() <= 6,
        ensures
            r == self@.certificate_limit(),
    {
        let count: usize = self.players.len();
        if count == 2 {
            20
        } else if count == 3 {
            20
        } else if count == 4 {
            16
        } else if count == 5 {
            13
        } else {
            11
        }
    }

    /// Returns the certificate count of a holder of `shares` in this `Game`
    pub fn certificates(&self, shares: &Shares) -> (r: u32)
        requires
            self@.stock_chart.wf(),
        ensures
            r == self@.certificate_count(shares@),
            r <= 64,
    {
        let shares = shares.checked();
        let mut total: u32 = 0;
        let mut i: usize = 0;
        proof {
            PubComId::lemma_all();
        }
        while i < 8
            invariant
                i <= 8,
                self@.stock_chart.wf(),
                shares@.wf(),
                total <= 8 * i,
                total == (if i > 0 { self@.certificates_at(shares@, 0) } else { 0 })
                    + (if i > 1 { self@.certificates_at(shares@, 1) } else { 0 })
                    + (if i > 2 { self@.certificates_at(shares@, 2) } else { 0 })
                    + (if i > 3 { self@.certificates_at(shares@, 3) } else { 0 })
                    + (if i > 4 { self@.certificates_at(shares@, 4) } else { 0 })
                    + (if i > 5 { self@.certificates_at(shares@, 5) } else { 0 })
                    + (if i > 6 { self@.certificates_at(shares@, 6) } else { 0 })
                    + (if i > 7 { self@.certificates_at(shares@, 7) } else { 0 }),
            decreases 8 - i,
        {
            let pub_com = PubComId::from_ordinal(i);
            let counts: bool = match self.stock_chart.value(pub_com) {
                Some(value) => value < SOLD_OUT_VALUE,
                None => true,
            };
            assert(counts == self@.counts_towards_limit(PubComId::all()[i as int]));
            if counts {
                total = total + shares.count(pub_com);
            }
            i = i + 1;
        }
        total
    }

    /// Returns the certificate count of `player` in this `Game`
    pub fn certificate_count(&self, player: &Player) -> (r: u32)
        requires
            self@.stock_chart.wf(),
        ensures
            r == self@.certificate_count(player@.shares),
            r <= 64,
    {
        self.certificates(player.shares())
    }
    /// Lets every player collect the revenue of their private companies
    pub(crate) fn operate_priv_coms(&mut self)
        requires
            old(self)@.revenue_fits(),
        ensures
            final(self)@ == old(self)@.operate_priv_coms(),
    {
        let count: usize = self.players.len();
        let mut i: usize = 0;
        while i < count
            invariant
                i <= count,
                count == self.players@.len(),
                count == old(self).players@.len(),
                old(self)@.revenue_fits(),
                self.round == old(self).round,
                self.phase == old(self).phase,
                self.current_player == old(self).current_player,
                self.priority_player == old(self).priority_player,
                self.passes == old(self).passes,
                self.pub_coms == old(self).pub_coms,
                self.map == old(self).map,
                self.tile_set == old(self).tile_set,
                self.train_set == old(self).train_set,
                self.stock_chart == old(self).stock_chart,
                self.par_track == old(self).par_track,
                self.ipo == old(self).ipo,
                self.pool == old(self).pool,
                self.buy_back_blocked == old(self).buy_back_blocked,
                forall|p: int| i <= p < count ==> #[trigger] self.players@[p] == old(self).players@[p],
                forall|p: int|
                    0 <= p < i ==> (#[trigger] self.players@[p])@ == old(
                        self,
                    ).players@[p]@.operate_priv_coms(),
            decreases count - i,
        {
            assert(old(self)@.players[i as int] == self.players@[i as int]@);
            self.players[i].operate_priv_coms();
            i = i + 1;
        }
        assert(self@ =~~= old(self)@.operate_priv_coms());
    }
    /// Gives the president's certificate of `pub_com` to the player with
    /// the most shares, if that is not the president: the first after the
    /// president, by seat, of those with the most
    pub(crate) fn update_president(&mut self, pub_com: PubComId)
        requires
            old(self)@.wf(),
        ensures
            final(self)@ == old(self)@.update_president(pub_com),
            final(self)@.wf(),
    {
        proof {
            self@.lemma_update_president(pub_com);
        }
        match self.president(pub_com) {
            Some(president) => {
                let count: usize = self.players.len();
                let mut new_president: usize = president;
                let mut max_shares: u32 = self.players[president].shares().count(pub_com);
                let mut i: usize = 1;
                while i < count
                    invariant
                        1 <= i <= count,
                        count == self.players@.len(),
                        president < count <= 6,
                        new_president < count,
                        new_president == self@.leader_after(pub_com, president as int, i - 1),
                        max_shares == self@.shares_at(new_president as int, pub_com),
                    decreases count - i,
                {
                    let j: usize = seat_following(president, i, count);
                    let shares: u32 = self.players[j].shares().count(pub_com);
                    if shares > max_shares {
                        new_president = j;
                        max_shares = shares;
                    }
                    i = i + 1;
                }
                assert(Some(new_president) == self@.new_president(pub_com));
                if new_president != president {
                    self.players[president].shares_mut().remove_president(pub_com);
                    self.players[new_president].shares_mut().add_president(pub_com);
                    assert(self@ =~~= old(self)@.update_president(pub_com));
                }
            },
            None => {},
        }
    }
    /// Moves the turn on: in the auction to the next player with a bid on
    /// a private company under active bidding, else to the next seat
    pub(crate) fn advance_current_player(&mut self)
        requires
            old(self)@.wf(),
        ensures
            final(self)@ == old(self)@.advance_current_player(),
            final(self)@.wf(),
    {
        match &self.round {
            RoundId::StockRound(_) => {
                proof {
                    self@.lemma_with_players(self@.advance_current_player());
                }
                self.current_player = seat_following(self.current_player, 1, self.players.len());
            },
            RoundId::PrivAuction(priv_auction) => {
                proof {
                    self@.lemma_advance_in_auction();
                }
                match priv_auction.next_player_in_auction() {
                    Some(player) => {
                        self.current_player = player;
                    },
                    None => {
                        self.current_player = seat_following(self.current_player, 1, self.players.len());
                    },
                }
            },
            _ => {},
        }
        assert(self@ =~~= old(self)@.advance_current_player());
    }

    /// Begins the first stock round: the player with priority deal is the
    /// first to act, and shares cannot be sold
    pub(crate) fn enter_first_stock_round(&mut self)
        ensures
            final(self)@ == old(self)@.enter_first_stock_round(),
    {
        self.round = RoundId::StockRound(StockRound::new(false));
        self.current_player = self.priority_player;
        assert(self@ =~~= old(self)@.enter_first_stock_round());
    }

    /// Begins a stock round after an operating round: the player with
    /// priority deal is the first to act, and shares can be sold
    pub fn enter_stock_round(&mut self)
        requires
            old(self)@.wf(),
            old(self)@.round is OperatingRound,
        ensures
            final(self)@ == old(self)@.enter_stock_round(),
            final(self)@.wf(),
    {
        proof {
            self@.lemma_with_players(self@.enter_stock_round());
        }
        self.round = RoundId::StockRound(StockRound::new(true));
        self.current_player = self.priority_player;
        self.passes = 0;
        assert(self@ =~~= old(self)@.enter_stock_round());
    }
    /// Returns the public company that operates first: the one with the
    /// highest share value, the first of them in the order of the companies
    pub fn current_pub_com(&self) -> (r: Option<PubComId>)
        requires
            self@.stock_chart.wf(),
        ensures
            r == self@.current_pub_com(),
    {
        let mut best: Option<(PubComId, u32)> = None;
        let mut i: usize = 0;
        proof {
            PubComId::lemma_all();
        }
        while i < 8
            invariant
                i <= 8,
                self@.stock_chart.wf(),
                best is None ==> forall|c: PubComId|
                    c.index() < i ==> (#[trigger] self@.stock_chart.value(c)) is None,
                best matches Some(b) ==> b.0.index() < i && self@.stock_chart.value(b.0) == Some(b.1)
                    && forall|c: PubComId|
                    c.index() < i ==> ((#[trigger] self@.stock_chart.value(c)) matches Some(v) ==> v <= b.1
                        && (v == b.1 ==> b.0.index() <= c.index())),
            decreases 8 - i,
        {
            let pub_com = PubComId::from_ordinal(i);
            proof {
                assert forall|c: PubComId| c.index() == i implies c == pub_com by {
                    PubComId::lemma_all();
                }
            }
            match self.stock_chart.value(pub_com) {
                Some(value) => {
                    match best {
                        Some(b) => {
                            if value > b.1 {
                                best = Some((pub_com, value));
                            }
                        },
                        None => {
                            best = Some((pub_com, value));
                        },
                    }
                },
                None => {},
            }
            i = i + 1;
        }
        proof {
            match best {
                Some(b) => {
                    assert(self@.leads_chart(b.0));
                    let c = choose|c: PubComId| self@.leads_chart(c);
                    assert(self@.stock_chart.value(c) is Some);
                    assert(self@.stock_chart.value(b.0) is Some);
                    assert(c.index() == b.0.index());
                    PubComId::lemma_all();
                },
                None => {
                    assert forall|c: PubComId| !self@.leads_chart(c) by {
                        assert(self@.stock_chart.value(c) is None);
                    }
                },
            }
        }
        match best {
            Some(b) => Some(b.0),
            None => None,
        }
    }

    /// Begins the first operating round: the companies with a share value
    /// are to operate, the players collect the revenue of their private
    /// companies, and the president of the company that operates first is
    /// the first to act
    pub(crate) fn enter_first_operating_round(&mut self)
        requires
            old(self)@.wf(),
            old(self)@.round is StockRound,
            old(self)@.revenue_fits(),
        ensures
            final(self)@ == old(self)@.enter_first_operating_round(),
    {
        let mut to_operate: [bool; 8] = [false; 8];
        let mut i: usize = 0;
        proof {
            PubComId::lemma_all();
        }
        while i < 8
            invariant
                i <= 8,
                self@.stock_chart.wf(),
                forall|k: int|
                    0 <= k < i ==> #[trigger] to_operate@[k] == (self@.stock_chart.value(
                        PubComId::all()[k],
                    ) is Some),
            decreases 8 - i,
        {
            to_operate[i] = self.stock_chart.value(PubComId::from_ordinal(i)).is_some();
            i = i + 1;
        }
        let left: u32 = self.phase.operating_round_count() - 1;
        self.round = RoundId::OperatingRound(OperatingRound::new(left, to_operate));
        let ghost entered = GameView {
            round: RoundView::OperatingRound(
                crate::rounds::operating_round::OperatingRoundView {
                    operating_rounds_left: (old(self)@.phase.spec_operating_round_count() - 1) as u32,
                    pub_coms_to_operate: Seq::new(
                        8,
                        |i: int| old(self)@.stock_chart.value(PubComId::all()[i]) is Some,
                    ),
                },
            ),
            ..old(self)@
        };
        assert(self@ =~~= entered);
        self.operate_priv_coms();
        match self.current_pub_com() {
            Some(first) => {
                match self.president(first) {
                    Some(president) => {
                        self.current_player = president;
                    },
                    None => {},
                }
            },
            None => {},
        }
        assert(self@ =~~= old(self)@.enter_first_operating_round());
    }

    /// Returns whether passing is allowed
    pub fn pass_allowed(&self) -> (b: bool)
        requires
            self@.wf(),
        ensures
            b == self@.pass_allowed(),
    {
        assert(self@.players[self.current_player as int].id == self.current_player);
        match &self.round {
            RoundId::StockRound(stock_round) => !stock_round.action_performed(),
            RoundId::PrivAuction(priv_auction) => priv_auction.pass_allowed(
                &self.players[self.current_player],
            ),
            _ => false,
        }
    }

    /// Passes
    pub fn pass(&mut self)
        requires
            old(self)@.wf(),
            old(self)@.pass_allowed(),
            old(self)@.pass_fits(),
        ensures
            final(self)@ == old(self)@.pass(),
            final(self)@.wf(),
    {
        let who: usize = self.current_player;
        let count: usize = self.players.len();
        proof {
            assert(self@.players[who as int].id == who);
            if self@.round is PrivAuction {
                self@.lemma_pass_in_auction();
            }
            if self@.round is StockRound {
                self@.lemma_pass_in_stock_round();
            }
        }
        let in_stock_round: bool = match &self.round {
            RoundId::StockRound(_) => true,
            _ => false,
        };
        if in_stock_round {
            self.passes = self.passes + 1;
            if self.passes == count {
                self.passes = 0;
                assert(self@ =~~= (GameView { passes: 0, ..old(self)@ }));
                proof {
                    old(self)@.lemma_with_players(self@);
                }
                self.enter_first_operating_round();
            } else {
                self.current_player = seat_following(who, 1, count);
                assert(self@ =~~= old(self)@.pass_in_stock_round());
            }
            return ;
        }
        let in_auction: bool = match &self.round {
            RoundId::PrivAuction(priv_auction) => priv_auction.in_auction(),
            _ => false,
        };
        if in_auction {
            let sold: Option<(PrivComId, usize, u32)> = match &mut self.round {
                RoundId::PrivAuction(priv_auction) => priv_auction.pass_auction(&self.players[who]),
                _ => None,
            };
            proof {
                let auction = old(self)@.auction();
                let lot = auction.current->Some_0;
                auction.withdraw(who as int, lot).lemma_only_bid(lot);
                assert(self@ =~~= (GameView {
                    round: RoundView::PrivAuction(auction.pass_auction(who as int)),
                    ..old(self)@
                }));
            }
            match sold {
                Some(sale) => {
                    proof {
                        let auction = old(self)@.auction();
                        let lot = auction.current->Some_0;
                        assert(auction.bids[sale.1 as int].len() == 6);
                        assert(auction.withdraw(who as int, lot).bid(sale.1 as int, lot) == Some(sale.2));
                        assert(auction.bid(sale.1 as int, lot) == Some(sale.2));
                    }
                    self.settle_sale(sale.0, sale.1, sale.2, Ghost(old(self)@));
                },
                None => {
                    proof {
                        old(self)@.lemma_passed_on(self@);
                    }
                    self.advance_current_player();
                },
            }
        } else {
            let lot: Option<PrivComId> = match &self.round {
                RoundId::PrivAuction(priv_auction) => priv_auction.current(),
                _ => None,
            };
            let everyone: bool = match &mut self.round {
                RoundId::PrivAuction(priv_auction) => priv_auction.pass_current(&self.players[who], count),
                _ => false,
            };
            assert(self@ =~~= (GameView {
                round: RoundView::PrivAuction(old(self)@.auction().pass_current(count as nat)),
                ..old(self)@
            }));
            proof {
                old(self)@.lemma_passed_on(self@);
            }
            let canal: bool = match lot {
                Some(PrivComId::DAndR(_)) => true,
                _ => false,
            };
            if everyone && !canal {
                self.operate_priv_coms();
                proof {
                    old(self)@.lemma_passed_on(self@);
                }
            }
            self.advance_current_player();
        }
    }
}

} // verus!
