//! The model of a game: its state as mathematical values, which moves are
//! legal in it, and the state that each move leads to.

use crate::economy::par_track::ParTrackView;
use crate::economy::player::PlayerView;
use crate::economy::pub_com::PubComView;
use crate::economy::shares::SharesView;
use crate::economy::stock_chart::StockChartView;
use crate::geography::map::MapView;
use crate::geography::tile::TileView;
use crate::ids::{PhaseId, PrivComId, PubComId, RoundView, TrainId};
use crate::rounds::operating_round::OperatingRoundView;
use crate::rounds::priv_auction::{seat_after, AuctionView};
use crate::rounds::stock_round::StockRoundView;
use vstd::prelude::*;

verus! {

/// The share value from which on a company's shares are left out of a
/// player's certificate count.
pub const SOLD_OUT_VALUE: u32 = 60;

/// The capital that the players share out among them at the start.
pub const BANK_CAPITAL: u32 = 2400;

/// The most certificates that a player may hold in a game of `player_count` players.
pub open spec fn certificate_limit(player_count: nat) -> nat {
    if player_count == 2 {
        20
    } else if player_count == 3 {
        20
    } else if player_count == 4 {
        16
    } else if player_count == 5 {
        13
    } else {
        11
    }
}

/// The state of a game. Players are listed by seat, public companies by `PubComId::index`.
#[verifier::ext_equal]
pub struct GameView {
    pub round: RoundView,
    pub phase: PhaseId,
    pub players: Seq<PlayerView>,
    pub current_player: nat,
    pub priority_player: nat,
    pub passes: nat,
    pub pub_coms: Seq<Option<PubComView>>,
    pub map: MapView,
    pub tile_set: Seq<(i32, TileView, i32)>,
    pub train_set: Set<(TrainId, i32)>,
    pub stock_chart: StockChartView,
    pub par_track: ParTrackView,
    pub ipo: SharesView,
    pub pool: SharesView,
    /// Whether a player who has sold shares of a company in a turn is kept
    /// from buying shares of it in the same turn
    pub buy_back_blocked: bool,
}

impl GameView {
    // ------------------------------------------------------------------
    // The ledger
    // ------------------------------------------------------------------
    /// The player whose turn it is.
    pub open spec fn actor(self) -> PlayerView {
        self.players[self.current_player as int]
    }

    /// The seat after that of the player whose turn it is.
    pub open spec fn next_seat(self) -> nat {
        seat_after(self.current_player as int, 1, self.players.len() as int) as nat
    }

    /// The shares of `pub_com` that the player at `seat` has; 0 at an empty seat.
    pub open spec fn shares_at(self, seat: int, pub_com: PubComId) -> nat {
        if seat < self.players.len() {
            self.players[seat].shares.count(pub_com)
        } else {
            0
        }
    }

    /// The shares of `pub_com` that the players have together.
    pub open spec fn player_shares(self, pub_com: PubComId) -> nat {
        self.shares_at(0, pub_com) + self.shares_at(1, pub_com) + self.shares_at(2, pub_com)
            + self.shares_at(3, pub_com) + self.shares_at(4, pub_com) + self.shares_at(5, pub_com)
    }

    /// The shares of `pub_com` that the players, the initial offering and the bank pool have together.
    pub open spec fn shares_total(self, pub_com: PubComId) -> nat {
        self.player_shares(pub_com) + self.ipo.count(pub_com) + self.pool.count(pub_com)
    }

    /// 1 if the player at `seat` has the president's certificate of `pub_com`, else 0.
    pub open spec fn marker_at(self, seat: int, pub_com: PubComId) -> nat {
        if seat < self.players.len() && self.players[seat].shares.president(pub_com) {
            1
        } else {
            0
        }
    }

    /// The number of holders of the president's certificate of `pub_com`:
    /// players, the initial offering and the bank pool.
    pub open spec fn president_markers(self, pub_com: PubComId) -> nat {
        self.marker_at(0, pub_com) + self.marker_at(1, pub_com) + self.marker_at(2, pub_com)
            + self.marker_at(3, pub_com) + self.marker_at(4, pub_com) + self.marker_at(5, pub_com) + (
        if self.ipo.president(pub_com) {
            1nat
        } else {
            0nat
        }) + (if self.pool.president(pub_com) {
            1nat
        } else {
            0nat
        })
    }

    /// The president of `pub_com`: the first player by seat with its president's certificate.
    pub open spec fn president(self, pub_com: PubComId) -> Option<usize> {
        if self.marker_at(0, pub_com) == 1 {
            Some(0usize)
        } else if self.marker_at(1, pub_com) == 1 {
            Some(1usize)
        } else if self.marker_at(2, pub_com) == 1 {
            Some(2usize)
        } else if self.marker_at(3, pub_com) == 1 {
            Some(3usize)
        } else if self.marker_at(4, pub_com) == 1 {
            Some(4usize)
        } else if self.marker_at(5, pub_com) == 1 {
            Some(5usize)
        } else {
            None
        }
    }

    /// Whether the shares of `pub_com` count towards the certificate limit:
    /// they do unless its share value has reached `SOLD_OUT_VALUE`.
    pub open spec fn counts_towards_limit(self, pub_com: PubComId) -> bool {
        !(self.stock_chart.value(pub_com) matches Some(v) && v >= SOLD_OUT_VALUE)
    }

    /// What the shares of the company at position `i` add to the certificate count of a holder.
    pub open spec fn certificates_at(self, shares: SharesView, i: int) -> nat {
        if self.counts_towards_limit(PubComId::all()[i]) {
            shares.counts[i]
        } else {
            0
        }
    }

    /// The certificate count of a holder of `shares`: the shares of the
    /// companies that count towards the limit.
    pub open spec fn certificate_count(self, shares: SharesView) -> nat {
        self.certificates_at(shares, 0) + self.certificates_at(shares, 1) + self.certificates_at(
            shares,
            2,
        ) + self.certificates_at(shares, 3) + self.certificates_at(shares, 4) + self.certificates_at(
            shares,
            5,
        ) + self.certificates_at(shares, 6) + self.certificates_at(shares, 7)
    }

    /// The most certificates that a player may hold in this game.
    pub open spec fn certificate_limit(self) -> nat {
        certificate_limit(self.players.len())
    }

    /// Whether the player at `seat` holds no more certificates than the limit allows.
    pub open spec fn within_limit(self, seat: int) -> bool {
        self.certificate_count(self.players[seat].shares) <= self.certificate_limit()
    }

    // ------------------------------------------------------------------
    // Well-formedness
    // ------------------------------------------------------------------
    /// Of every public company there are 8 shares in all, and one holder has
    /// its president's certificate.
    pub open spec fn ledger_balanced(self) -> bool {
        forall|c: PubComId|
            #![trigger self.shares_total(c)]
            #![trigger self.president_markers(c)]
            self.shares_total(c) == 8 && self.president_markers(c) == 1
    }

    /// A company whose president's certificate is in the initial offering
    /// has all its shares there and neither par price nor share value; any
    /// other company has both, and the bank pool never has the certificate.
    pub open spec fn companies_consistent(self) -> bool {
        forall|c: PubComId|
            #![trigger self.ipo.president(c)]
            #![trigger self.par_track.value(c)]
            #![trigger self.stock_chart.value(c)]
            {
                &&& !self.pool.president(c)
                &&& self.ipo.president(c) ==> self.ipo.count(c) == 8 && self.par_track.value(c) is None
                    && self.stock_chart.value(c) is None
                &&& !self.ipo.president(c) ==> self.par_track.value(c) is Some && self.stock_chart.value(
                    c,
                ) is Some
            }
    }

    /// In the auction every player has a row of bids, the passes in a row
    /// are fewer than the players, and nobody's bid on the lot exceeds their capital.
    pub open spec fn round_consistent(self) -> bool {
        match self.round {
            RoundView::PrivAuction(auction) => {
                &&& auction.wf()
                &&& auction.bids.len() == self.players.len()
                &&& auction.passes < self.players.len()
                &&& auction.current matches Some(cur) ==> forall|p: int|
                    0 <= p < self.players.len() ==> (#[trigger] auction.bid(p, cur) matches Some(b)
                        ==> b <= self.players[p].capital)
            },
            RoundView::StockRound(_) => true,
            RoundView::OperatingRound(round) => round.pub_coms_to_operate.len() == 8,
        }
    }

    /// The state is one that a game can be in.
    pub open spec fn wf(self) -> bool {
        &&& 2 <= self.players.len() <= 6
        &&& self.current_player < self.players.len()
        &&& self.priority_player < self.players.len()
        &&& self.passes < self.players.len()
        &&& forall|p: int|
            0 <= p < self.players.len() ==> (#[trigger] self.players[p]).wf() && self.players[p].id == p
                && self.players[p].capital <= u32::MAX
        &&& self.pub_coms.len() == 8
        &&& self.map.wf()
        &&& self.stock_chart.wf()
        &&& self.par_track.wf()
        &&& self.ipo.wf()
        &&& self.pool.wf()
        &&& self.ledger_balanced()
        &&& self.companies_consistent()
        &&& self.round_consistent()
    }

    /// The state in which a game of `player_count` players starts.
    pub open spec fn new(
        player_count: nat,
        map: MapView,
        tile_set: Seq<(i32, TileView, i32)>,
        train_set: Set<(TrainId, i32)>,
        stock_chart: StockChartView,
        par_track: ParTrackView,
    ) -> GameView {
        GameView {
            round: RoundView::PrivAuction(AuctionView::new(player_count)),
            phase: PhaseId::Phase2,
            players: Seq::new(
                player_count,
                |p: int| PlayerView::new(p as nat, BANK_CAPITAL as nat / player_count),
            ),
            current_player: 0,
            priority_player: 0,
            passes: 0,
            pub_coms: Seq::new(8, |i: int| None::<PubComView>),
            map,
            tile_set,
            train_set,
            stock_chart,
            par_track,
            ipo: SharesView::ipo(),
            pool: SharesView::empty(),
            buy_back_blocked: false,
        }
    }

    // ------------------------------------------------------------------
    // Steps that several moves share
    // ------------------------------------------------------------------
    /// The state with other holdings for the player at `seat`.
    pub open spec fn with_player(self, seat: int, player: PlayerView) -> GameView {
        GameView { players: self.players.update(seat, player), ..self }
    }

    /// The state after every player has collected the revenue of their private companies.
    pub open spec fn operate_priv_coms(self) -> GameView {
        GameView {
            players: Seq::new(self.players.len(), |p: int| self.players[p].operate_priv_coms()),
            ..self
        }
    }

    /// Whether every player's capital and the revenue of their private
    /// companies together are a number that the ledger can hold.
    pub open spec fn revenue_fits(self) -> bool {
        forall|p: int|
            0 <= p < self.players.len() ==> (#[trigger] self.players[p]).capital + self.players[p].income()
                <= u32::MAX
    }

    /// The seat that leads the holders of `pub_com` when the `steps` seats
    /// after `president` have been looked at in turn: a seat takes the lead
    /// only with more shares than the leader so far.
    pub open spec fn leader_after(self, pub_com: PubComId, president: int, steps: int) -> int
        decreases steps,
    {
        if steps <= 0 {
            president
        } else {
            let leader = self.leader_after(pub_com, president, steps - 1);
            let seat = seat_after(president, steps, self.players.len() as int);
            if self.shares_at(seat, pub_com) > self.shares_at(leader, pub_com) {
                seat
            } else {
                leader
            }
        }
    }

    /// The player who is president of `pub_com` once the shares are counted
    /// again: the president, unless another player has more shares; then the
    /// first after the president, by seat, of those with the most.
    pub open spec fn new_president(self, pub_com: PubComId) -> Option<usize> {
        match self.president(pub_com) {
            Some(president) => Some(
                self.leader_after(pub_com, president as int, self.players.len() - 1) as usize,
            ),
            None => None,
        }
    }

    /// The state after the president's certificate of `pub_com` has gone to
    /// the player with the most shares, if that is not the president.
    pub open spec fn update_president(self, pub_com: PubComId) -> GameView {
        match (self.president(pub_com), self.new_president(pub_com)) {
            (Some(president), Some(leader)) => if leader != president {
                self.president_moved(pub_com, president as int, leader as int)
            } else {
                self
            },
            _ => self,
        }
    }

    /// The state after the president's certificate of `pub_com` has gone
    /// from the player at seat `from` to the player at seat `to`.
    pub open spec fn president_moved(self, pub_com: PubComId, from: int, to: int) -> GameView {
        let resigned = self.with_player(
            from,
            self.players[from].with_shares(self.players[from].shares.remove_president(pub_com)),
        );
        resigned.with_player(
            to,
            resigned.players[to].with_shares(resigned.players[to].shares.add_president(pub_com)),
        )
    }

    /// The state at the start of the first stock round: shares cannot be
    /// sold in it, and the player with priority deal begins.
    pub open spec fn enter_first_stock_round(self) -> GameView {
        GameView {
            round: RoundView::StockRound(StockRoundView::new(false)),
            current_player: self.priority_player,
            ..self
        }
    }

    /// The state at the start of a later stock round: shares can be sold in
    /// it, and the player with priority deal begins.
    pub open spec fn enter_stock_round(self) -> GameView {
        GameView {
            round: RoundView::StockRound(StockRoundView::new(true)),
            current_player: self.priority_player,
            passes: 0,
            ..self
        }
    }

    /// Whether `pub_com` has the highest share value, and is the first company with it.
    pub open spec fn leads_chart(self, pub_com: PubComId) -> bool {
        &&& self.stock_chart.value(pub_com) is Some
        &&& forall|c: PubComId|
            (#[trigger] self.stock_chart.value(c)) matches Some(v) ==> v
                <= self.stock_chart.value(pub_com)->Some_0 && (v == self.stock_chart.value(
                pub_com,
            )->Some_0 ==> pub_com.index() <= c.index())
    }

    /// The company that operates first: the one with the highest share
    /// value, the first of them in the order of the companies. None if no
    /// company has a share value.
    pub open spec fn current_pub_com(self) -> Option<PubComId> {
        if exists|c: PubComId| self.leads_chart(c) {
            Some(choose|c: PubComId| self.leads_chart(c))
        } else {
            None
        }
    }

    /// The state at the start of the first operating round: the companies
    /// with a share value are to operate, the players collect the revenue of
    /// their private companies, and the turn goes to the president of the
    /// company that operates first.
    pub open spec fn enter_first_operating_round(self) -> GameView {
        let entered = GameView {
            round: RoundView::OperatingRound(
                OperatingRoundView {
                    operating_rounds_left: (self.phase.spec_operating_round_count() - 1) as u32,
                    pub_coms_to_operate: Seq::new(
                        8,
                        |i: int| self.stock_chart.value(PubComId::all()[i]) is Some,
                    ),
                },
            ),
            ..self
        }.operate_priv_coms();
        match entered.current_pub_com() {
            Some(first) => match entered.president(first) {
                Some(president) => GameView { current_player: president as nat, ..entered },
                None => entered,
            },
            None => entered,
        }
    }

    // ------------------------------------------------------------------
    // The private auction
    // ------------------------------------------------------------------
    /// The state of the auction, in the auction.
    pub open spec fn auction(self) -> AuctionView {
        self.round->PrivAuction_0
    }

    /// The state with the turn moved on, in the auction: to the next player
    /// with a bid on a lot under active bidding, else to the next seat.
    pub open spec fn advance_in_auction(self) -> GameView {
        match self.auction().next_player_in_auction() {
            Some(player) => GameView { current_player: player as nat, ..self },
            None => GameView { current_player: self.next_seat(), ..self },
        }
    }

    /// The state with the turn moved on: in the auction as the auction
    /// says, in a stock round to the next seat.
    pub open spec fn advance_current_player(self) -> GameView {
        match self.round {
            RoundView::PrivAuction(_) => self.advance_in_auction(),
            RoundView::StockRound(_) => GameView { current_player: self.next_seat(), ..self },
            RoundView::OperatingRound(_) => self,
        }
    }

    /// Whether the player whose turn it is may bid `amount` on `private`.
    pub open spec fn bid_priv_allowed(self, private: PrivComId, amount: u32) -> bool {
        self.round is PrivAuction && self.auction().bid_allowed(
            self.current_player as int,
            self.actor().capital,
            private,
            amount as nat,
        )
    }

    /// The state after the player whose turn it is has bid `amount` on `private`.
    pub open spec fn bid_priv(self, private: PrivComId, amount: u32) -> GameView {
        GameView {
            round: RoundView::PrivAuction(
                self.auction().place_bid(self.current_player as int, private, amount),
            ),
            ..self
        }.advance_in_auction()
    }

    /// Whether the player whose turn it is may buy the lot at its face cost.
    pub open spec fn buy_cheapest_priv_allowed(self) -> bool {
        self.round is PrivAuction && self.auction().buy_allowed(
            self.current_player as int,
            self.actor().capital,
        )
    }

    /// The state after the private company `lot` was sold to the player at
    /// `seat` for `price` and the auction went on to `auction`: if no lot
    /// is left the first stock round begins, else the turn moves on.
    pub open spec fn lot_sold(self, auction: AuctionView, lot: PrivComId, seat: int, price: nat) -> GameView {
        let sold = GameView {
            round: RoundView::PrivAuction(auction),
            ..self.with_player(seat, self.players[seat].buy_priv(lot, price))
        };
        if auction.current is None {
            sold.enter_first_stock_round()
        } else {
            sold.advance_in_auction()
        }
    }

    /// The state after the player whose turn it is has bought the lot at
    /// its face cost: priority deal goes to the next seat.
    pub open spec fn buy_cheapest_priv(self) -> GameView {
        let lot = self.auction().current->Some_0;
        GameView { priority_player: self.next_seat(), ..self }.lot_sold(
            self.auction().buy_current(),
            lot,
            self.current_player as int,
            lot.spec_cost(),
        )
    }

    /// The state after the player whose turn it is has passed in the auction.
    pub open spec fn pass_in_auction(self) -> GameView {
        let auction = self.auction();
        let who = self.current_player as int;
        let lot = auction.current->Some_0;
        if auction.in_auction(lot) {
            match auction.sale_on_pass(who) {
                Some(sale) => self.lot_sold(auction.pass_auction(who), sale.0, sale.1 as int, sale.2 as nat),
                None => GameView {
                    round: RoundView::PrivAuction(auction.pass_auction(who)),
                    ..self
                }.advance_in_auction(),
            }
        } else {
            let passed = GameView {
                round: RoundView::PrivAuction(auction.pass_current(self.players.len())),
                ..self
            };
            if auction.passes + 1 == self.players.len() && !(lot is DAndR) {
                passed.operate_priv_coms().advance_in_auction()
            } else {
                passed.advance_in_auction()
            }
        }
    }

    // ------------------------------------------------------------------
    // The stock round
    // ------------------------------------------------------------------
    /// The state of the stock round, in a stock round.
    pub open spec fn stock_round(self) -> StockRoundView {
        self.round->StockRound_0
    }

    /// The state after the turn of the player whose turn it is has ended, in a stock round.
    pub open spec fn turn_ended(self) -> GameView {
        GameView {
            round: RoundView::StockRound(self.stock_round().turn_ended()),
            passes: 0,
            current_player: self.next_seat(),
            ..self
        }
    }

    /// The ledger after the player whose turn it is has taken a share of
    /// `pub_com` from the initial offering at `price`, before the president is looked for again.
    pub open spec fn ipo_share_taken(self, pub_com: PubComId, price: nat) -> GameView {
        GameView {
            ipo: self.ipo.remove_shares(pub_com, 1),
            ..self.with_player(
                self.current_player as int,
                self.actor().with_shares(self.actor().shares.add_shares(pub_com, 1)).remove_capital(price),
            )
        }
    }

    /// The ledger after the player whose turn it is has taken a share of
    /// `pub_com` from the bank pool at `price`, before the president is looked for again.
    pub open spec fn pool_share_taken(self, pub_com: PubComId, price: nat) -> GameView {
        GameView {
            pool: self.pool.remove_shares(pub_com, 1),
            ..self.with_player(
                self.current_player as int,
                self.actor().with_shares(self.actor().shares.add_shares(pub_com, 1)).remove_capital(price),
            )
        }
    }

    /// The state after `pub_com` has floated, if it has to: when fewer
    /// than 5 of its shares are left in the initial offering and it has not
    /// floated before, it gets ten times its par price as treasury, and
    /// its home station is placed.
    pub open spec fn floated(self, pub_com: PubComId, par: nat) -> GameView {
        if self.ipo.count(pub_com) < 5 && self.pub_coms[pub_com.index()] is None {
            GameView {
                pub_coms: self.pub_coms.update(pub_com.index(), Some(PubComView::new(pub_com, (10 * par) as nat))),
                map: self.map.place_home_station(pub_com),
                ..self
            }
        } else {
            self
        }
    }

    /// Whether the player whose turn it is may buy shares of `pub_com` as
    /// far as sales go: buying back is not blocked, or the player has not
    /// sold shares of the company in this turn.
    pub open spec fn buy_back_allowed(self, pub_com: PubComId) -> bool {
        !(self.buy_back_blocked && self.stock_round().pub_coms_sold.contains(
            (pub_com, self.current_player as usize),
        ))
    }

    /// Whether the player whose turn it is may buy a share of `pub_com`
    /// from the initial offering: the company has a par price that the
    /// player can pay, the offering has a share of it, the player has fewer
    /// than 6, and with one more is within the certificate limit. Where
    /// buying back is blocked, the player has not sold shares of the company
    /// in this turn.
    pub open spec fn buy_ipo_share_allowed(self, pub_com: PubComId) -> bool {
        &&& self.round is StockRound
        &&& self.buy_back_allowed(pub_com)
        &&& self.par_track.value(pub_com) matches Some(par)
        &&& self.ipo.count(pub_com) > 0
        &&& self.actor().shares.count(pub_com) < 6
        &&& self.certificate_count(self.actor().shares.add_shares(pub_com, 1)) <= self.certificate_limit()
        &&& self.actor().capital >= par
    }

    /// The state after the player whose turn it is has bought a share of
    /// `pub_com` from the initial offering.
    pub open spec fn buy_ipo_share(self, pub_com: PubComId) -> GameView {
        let par = self.par_track.value(pub_com)->Some_0 as nat;
        self.ipo_share_taken(pub_com, par).update_president(pub_com).floated(pub_com, par).turn_ended()
    }

    /// Whether the player whose turn it is may buy a share of `pub_com`
    /// from the bank pool: the company has a share value that the player can
    /// pay, the pool has a share of it, the player has fewer than 6, and with
    /// one more is within the certificate limit. Where buying back is
    /// blocked, the player has not sold shares of the company in this turn.
    pub open spec fn buy_pool_share_allowed(self, pub_com: PubComId) -> bool {
        &&& self.round is StockRound
        &&& self.buy_back_allowed(pub_com)
        &&& self.stock_chart.value(pub_com) matches Some(value)
        &&& self.pool.count(pub_com) > 0
        &&& self.actor().shares.count(pub_com) < 6
        &&& self.certificate_count(self.actor().shares.add_shares(pub_com, 1)) <= self.certificate_limit()
        &&& self.actor().capital >= value
    }

    /// The state after the player whose turn it is has bought a share of `pub_com` from the bank pool.
    pub open spec fn buy_pool_share(self, pub_com: PubComId) -> GameView {
        let value = self.stock_chart.value(pub_com)->Some_0 as nat;
        self.pool_share_taken(pub_com, value).update_president(pub_com).turn_ended()
    }

    /// The ledger, the par track and the stock chart after the player whose
    /// turn it is has taken the president's certificate of `pub_com` with two
    /// shares from the initial offering at twice `par`.
    pub open spec fn presidency_taken(self, pub_com: PubComId, par: u32) -> GameView {
        GameView {
            ipo: self.ipo.remove_shares(pub_com, 2).remove_president(pub_com),
            par_track: self.par_track.add_token(pub_com, par as nat),
            stock_chart: self.stock_chart.add_token(pub_com, par as nat),
            ..self.with_player(
                self.current_player as int,
                self.actor().with_shares(
                    self.actor().shares.add_shares(pub_com, 2).add_president(pub_com),
                ).remove_capital((2 * par) as nat),
            )
        }
    }

    /// Whether the player whose turn it is may buy the presidency of
    /// `pub_com` at `par`: the par track offers `par`, the certificate is in
    /// the initial offering, the player can pay twice `par`, and is then
    /// within the certificate limit.
    pub open spec fn buy_presidency_allowed(self, pub_com: PubComId, par: u32) -> bool {
        &&& self.round is StockRound
        &&& self.par_track.offers(par as nat)
        &&& self.ipo.president(pub_com)
        &&& self.presidency_taken(pub_com, par).within_limit(self.current_player as int)
        &&& self.actor().capital >= 2 * par
    }

    /// The state after the player whose turn it is has bought the presidency of `pub_com` at `par`.
    pub open spec fn buy_presidency(self, pub_com: PubComId, par: u32) -> GameView {
        self.presidency_taken(pub_com, par).turn_ended()
    }

    /// Whether a player other than the one whose turn it is has 2 or more shares of `pub_com`.
    pub open spec fn other_holds_two(self, pub_com: PubComId) -> bool {
        exists|p: int|
            0 <= p < self.players.len() && p != self.current_player && (
            #[trigger] self.players[p]).shares.count(pub_com) >= 2
    }

    /// Whether the player whose turn it is may sell `count` shares of
    /// `pub_com`: shares can be sold in this round, the company has a share
    /// value, the player has the shares, the bank pool has no more than 5 of
    /// the company afterwards, and a president keeps 2 shares unless another
    /// player has 2.
    pub open spec fn sell_shares_allowed(self, pub_com: PubComId, count: u32) -> bool {
        &&& self.round is StockRound
        &&& (!self.actor().shares.president(pub_com) || self.actor().shares.count(pub_com) - count >= 2
            || self.other_holds_two(pub_com))
        &&& count + self.pool.count(pub_com) <= 5
        &&& self.actor().shares.count(pub_com) >= count
        &&& self.stock_chart.value(pub_com) is Some
        &&& self.stock_round().sell_allowed
    }

    /// What the player whose turn it is gets for `count` shares of `pub_com`.
    pub open spec fn proceeds(self, pub_com: PubComId, count: u32) -> nat {
        (self.stock_chart.value(pub_com)->Some_0 * count) as nat
    }

    /// The state after the player whose turn it is has handed `count`
    /// shares of `pub_com` to the bank pool for their value and the share
    /// value has gone down by `count` places, before the president is looked
    /// for again.
    pub open spec fn shares_sold(self, pub_com: PubComId, count: u32) -> GameView {
        GameView {
            round: RoundView::StockRound(
                self.stock_round().set_action_performed().insert_pub_com_sold(
                    pub_com,
                    self.current_player as usize,
                ),
            ),
            pool: self.pool.add_shares(pub_com, count as nat),
            stock_chart: self.stock_chart.move_down(pub_com, count as nat),
            ..self.with_player(
                self.current_player as int,
                self.actor().with_shares(self.actor().shares.remove_shares(pub_com, count as nat)).add_capital(
                    self.proceeds(pub_com, count),
                ),
            )
        }
    }

    /// The state after the player whose turn it is has sold `count` shares
    /// of `pub_com`: the shares are in the bank pool, the player has their
    /// value, the share value has gone down by `count` places, and the
    /// president's certificate is with the player who has the most shares.
    /// The turn goes on.
    pub open spec fn sell_shares(self, pub_com: PubComId, count: u32) -> GameView {
        self.shares_sold(pub_com, count).update_president(pub_com)
    }

    /// Whether the player whose turn it is may end it: they have sold
    /// shares in it and are within the certificate limit.
    pub open spec fn end_turn_allowed(self) -> bool {
        &&& self.round is StockRound
        &&& self.stock_round().action_performed
        &&& self.within_limit(self.current_player as int)
    }

    /// The state after the player whose turn it is has ended it.
    pub open spec fn end_turn(self) -> GameView {
        self.turn_ended()
    }

    // ------------------------------------------------------------------
    // Passing
    // ------------------------------------------------------------------
    /// Whether the player whose turn it is may pass. In the auction the
    /// auction decides; in a stock round a player who has not sold shares in
    /// this turn may pass; in an operating round nobody passes.
    pub open spec fn pass_allowed(self) -> bool {
        match self.round {
            RoundView::PrivAuction(auction) => auction.pass_allowed(self.current_player as int),
            RoundView::StockRound(stock_round) => !stock_round.action_performed,
            RoundView::OperatingRound(_) => false,
        }
    }

    /// The state after the player whose turn it is has passed in a stock
    /// round: when all players have passed in a row the first operating
    /// round begins, else the turn goes to the next seat.
    pub open spec fn pass_in_stock_round(self) -> GameView {
        if self.passes + 1 == self.players.len() {
            GameView { passes: 0, ..self }.enter_first_operating_round()
        } else {
            GameView { passes: self.passes + 1, current_player: self.next_seat(), ..self }
        }
    }

    /// Whether the revenue that a pass makes the players collect fits into the ledger.
    pub open spec fn pass_fits(self) -> bool {
        match self.round {
            RoundView::PrivAuction(auction) => (auction.current matches Some(lot) && !auction.in_auction(
                lot,
            ) && !(lot is DAndR) && auction.passes + 1 == self.players.len()) ==> self.revenue_fits(),
            RoundView::StockRound(_) => self.passes + 1 == self.players.len() ==> self.revenue_fits(),
            RoundView::OperatingRound(_) => true,
        }
    }

    /// The state after the player whose turn it is has passed.
    pub open spec fn pass(self) -> GameView {
        match self.round {
            RoundView::PrivAuction(_) => self.pass_in_auction(),
            RoundView::StockRound(_) => self.pass_in_stock_round(),
            RoundView::OperatingRound(_) => self,
        }
    }
}

} // verus!
