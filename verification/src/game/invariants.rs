//! What every move keeps true of a game: the shares of each company add up
//! to 8, each company has one president's certificate, and a purchase leaves
//! the buyer within the certificate limit.

use crate::economy::par_track::ParTrackView;
use crate::economy::stock_chart::StockChartView;
use crate::game::view::{GameView, BANK_CAPITAL};
use crate::geography::map::MapView;
use crate::geography::tile::TileView;
use crate::ids::{PrivComId, PubComId, RoundView, TrainId};
use crate::rounds::priv_auction::seat_after;
use vstd::prelude::*;

verus! {

impl GameView {
    /// A game starts in a state that a game can be in.
    pub proof fn lemma_new_wf(
        player_count: nat,
        map: MapView,
        tile_set: Seq<(i32, TileView, i32)>,
        train_set: Set<(TrainId, i32)>,
        stock_chart: StockChartView,
        par_track: ParTrackView,
    )
        requires
            2 <= player_count <= 6,
            map.wf(),
            stock_chart.wf(),
            stock_chart.has_no_token(),
            par_track.wf(),
            par_track.has_no_token(),
        ensures
            GameView::new(player_count, map, tile_set, train_set, stock_chart, par_track).wf(),
    {
        let g = GameView::new(player_count, map, tile_set, train_set, stock_chart, par_track);
        assert(BANK_CAPITAL as nat / player_count <= 2400) by (nonlinear_arith)
            requires
                2 <= player_count <= 6,
                BANK_CAPITAL == 2400,
        ;
        assert forall|c: PubComId|
            #![trigger g.shares_total(c)]
            #![trigger g.president_markers(c)]
            g.shares_total(c) == 8 && g.president_markers(c) == 1 by {
            assert(0 <= c.index() < 8);
        }
        assert forall|c: PubComId|
            #![trigger g.ipo.president(c)]
            #![trigger g.par_track.value(c)]
            #![trigger g.stock_chart.value(c)]
            {
                &&& !g.pool.president(c)
                &&& g.ipo.president(c) ==> g.ipo.count(c) == 8 && g.par_track.value(c) is None
                    && g.stock_chart.value(c) is None
                &&& !g.ipo.president(c) ==> g.par_track.value(c) is Some && g.stock_chart.value(c) is Some
            } by {
            assert(0 <= c.index() < 8);
            assert(stock_chart.tokens[c.index()] is None);
            assert(par_track.tokens[c.index()] is None);
        }
    }

    /// The seat that leads the holders of a company is a seat of the game,
    /// and nobody has more shares of the company than the player there.
    pub proof fn lemma_leader(self, pub_com: PubComId, president: int, steps: int)
        requires
            0 <= president < self.players.len(),
            0 <= steps < self.players.len(),
        ensures
            0 <= self.leader_after(pub_com, president, steps) < self.players.len(),
            self.shares_at(self.leader_after(pub_com, president, steps), pub_com) >= self.shares_at(
                president,
                pub_com,
            ),
            forall|i: int|
                1 <= i <= steps ==> self.shares_at(
                    #[trigger] seat_after(president, i, self.players.len() as int),
                    pub_com,
                ) <= self.shares_at(self.leader_after(pub_com, president, steps), pub_com),
        decreases steps,
    {
        if steps > 0 {
            self.lemma_leader(pub_com, president, steps - 1);
        }
    }

    /// Handing the president's certificate from its holder to a player
    /// without it leaves the shares as they are and the company with one
    /// president's certificate.
    pub proof fn lemma_president_moved(self, pub_com: PubComId, from: int, to: int)
        requires
            self.wf(),
            0 <= from < self.players.len(),
            0 <= to < self.players.len(),
            from != to,
            self.marker_at(from, pub_com) == 1,
            self.marker_at(to, pub_com) == 0,
        ensures
            self.president_moved(pub_com, from, to).ledger_balanced(),
            self.president_moved(pub_com, from, to).players.len() == self.players.len(),
            forall|p: int|
                0 <= p < self.players.len() ==> (#[trigger] self.president_moved(pub_com, from, to).players[p]).capital
                    == self.players[p].capital && self.president_moved(pub_com, from, to).players[p].shares.counts
                    == self.players[p].shares.counts && self.president_moved(
                    pub_com,
                    from,
                    to,
                ).players[p].priv_coms == self.players[p].priv_coms && self.president_moved(
                    pub_com,
                    from,
                    to,
                ).players[p].id == self.players[p].id && self.president_moved(
                    pub_com,
                    from,
                    to,
                ).players[p].shares.presidencies.len() == 8,
            self.president_moved(pub_com, from, to) == (GameView {
                players: self.president_moved(pub_com, from, to).players,
                ..self
            }),
    {
        let after = self.president_moved(pub_com, from, to);
        assert(self.players[from].wf());
        assert(self.players[to].wf());
        assert forall|p: int| 0 <= p < self.players.len() implies (#[trigger] after.players[p]).capital
            == self.players[p].capital && after.players[p].shares.counts == self.players[p].shares.counts
            && after.players[p].priv_coms == self.players[p].priv_coms && after.players[p].id
            == self.players[p].id && after.players[p].shares.presidencies.len() == 8 by {
            assert(self.players[p].wf());
        }
        assert forall|c: PubComId|
            #![trigger after.shares_total(c)]
            #![trigger after.president_markers(c)]
            after.shares_total(c) == 8 && after.president_markers(c) == 1 by {
            assert(self.shares_total(c) == 8 && self.president_markers(c) == 1);
            assert(0 <= c.index() < 8 && 0 <= pub_com.index() < 8);
            assert(c != pub_com ==> c.index() != pub_com.index());
            assert forall|seat: int| 0 <= seat < 6 implies after.shares_at(seat, c) == self.shares_at(
                seat,
                c,
            ) by {}
            assert forall|seat: int|
                0 <= seat < 6 && (c != pub_com || (seat != from && seat != to)) implies after.marker_at(
                seat,
                c,
            ) == self.marker_at(seat, c) by {}
            assert(c == pub_com ==> after.marker_at(from, c) == 0 && after.marker_at(to, c) == 1);
        }
    }

    /// Looking for the president again moves nothing but the president's
    /// certificate, and keeps a state well-formed.
    pub proof fn lemma_update_president(self, pub_com: PubComId)
        requires
            self.wf(),
        ensures
            self.update_president(pub_com).wf(),
            self.update_president(pub_com).players.len() == self.players.len(),
            forall|p: int|
                0 <= p < self.players.len() ==> (#[trigger] self.update_president(pub_com).players[p]).capital
                    == self.players[p].capital && self.update_president(pub_com).players[p].shares.counts
                    == self.players[p].shares.counts && self.update_president(pub_com).players[p].priv_coms
                    == self.players[p].priv_coms,
            self.update_president(pub_com) == (GameView {
                players: self.update_president(pub_com).players,
                ..self
            }),
    {
        if self.president(pub_com) is Some {
            let president = self.president(pub_com)->Some_0 as int;
            self.lemma_leader(pub_com, president, self.players.len() - 1);
            let leader = self.new_president(pub_com)->Some_0 as int;
            if leader != president {
                assert(self.president_markers(pub_com) == 1);
                assert(self.marker_at(president, pub_com) == 1);
                assert(self.marker_at(leader, pub_com) == 0);
                self.lemma_president_moved(pub_com, president, leader);
                let after = self.president_moved(pub_com, president, leader);
                assert(after == self.update_president(pub_com));
                after.lemma_moved_wf(self);
            }
        }
    }

    /// A state with a balanced ledger that differs from a well-formed
    /// one only in who has which president's certificate is well-formed.
    pub proof fn lemma_moved_wf(self, before: GameView)
        requires
            before.wf(),
            self.ledger_balanced(),
            self.players.len() == before.players.len(),
            forall|p: int|
                0 <= p < self.players.len() ==> (#[trigger] self.players[p]).capital
                    == before.players[p].capital && self.players[p].shares.counts
                    == before.players[p].shares.counts && self.players[p].priv_coms
                    == before.players[p].priv_coms && self.players[p].id == before.players[p].id
                    && self.players[p].shares.presidencies.len() == 8,
            self == (GameView { players: self.players, ..before }),
        ensures
            self.wf(),
    {
        assert forall|p: int| 0 <= p < self.players.len() implies (#[trigger] self.players[p]).wf()
            && self.players[p].id == p && self.players[p].capital <= u32::MAX by {
            assert(before.players[p].wf());
        }
        assert(self.companies_consistent()) by {
            assert(before.companies_consistent());
        }
        assert(self.round_consistent()) by {
            assert(before.round_consistent());
            if self.round is PrivAuction {
                let auction = self.auction();
                if auction.current is Some {
                    let cur = auction.current->Some_0;
                    assert forall|p: int| 0 <= p < self.players.len() implies (#[trigger] auction.bid(
                        p,
                        cur,
                    ) matches Some(b) ==> b <= self.players[p].capital) by {
                        assert(auction.bid(p, cur) matches Some(b) ==> b <= before.players[p].capital);
                    }
                }
            }
        }
    }

    /// Two different companies stand at different positions.
    pub proof fn lemma_index(a: PubComId, b: PubComId)
        ensures
            0 <= a.index() < 8,
            a != b ==> a.index() != b.index(),
    {
    }

    /// Blocking or allowing to buy back keeps a state well-formed.
    pub proof fn lemma_policy(self, blocked: bool)
        requires
            self.wf(),
        ensures
            (GameView { buy_back_blocked: blocked, ..self }).wf(),
    {
        let after = GameView { buy_back_blocked: blocked, ..self };
        assert forall|c: PubComId|
            #![trigger after.shares_total(c)]
            #![trigger after.president_markers(c)]
            after.shares_total(c) == 8 && after.president_markers(c) == 1 by {
            assert(self.shares_total(c) == 8 && self.president_markers(c) == 1);
        }
    }

    /// Ending a turn keeps a state well-formed, and nobody's holdings change.
    pub proof fn lemma_turn_ended(self)
        requires
            self.wf(),
            self.round is StockRound,
        ensures
            self.turn_ended().wf(),
            self.turn_ended().players == self.players,
            self.turn_ended().stock_chart == self.stock_chart,
    {
        let after = self.turn_ended();
        assert forall|c: PubComId|
            #![trigger after.shares_total(c)]
            #![trigger after.president_markers(c)]
            after.shares_total(c) == 8 && after.president_markers(c) == 1 by {
            assert(self.shares_total(c) == 8 && self.president_markers(c) == 1);
        }
    }

    /// A share taken from the initial offering is a share more for the
    /// buyer: the shares still add up to 8, and the state stays well-formed.
    pub proof fn lemma_ipo_share_taken(self, pub_com: PubComId)
        requires
            self.wf(),
            self.buy_ipo_share_allowed(pub_com),
        ensures
            self.ipo_share_taken(pub_com, self.par_track.value(pub_com)->Some_0 as nat).wf(),
    {
        let par = self.par_track.value(pub_com)->Some_0 as nat;
        let after = self.ipo_share_taken(pub_com, par);
        let who = self.current_player as int;
        assert(self.players[who].wf());
        assert forall|c: PubComId|
            #![trigger after.shares_total(c)]
            #![trigger after.president_markers(c)]
            after.shares_total(c) == 8 && after.president_markers(c) == 1 by {
            assert(self.shares_total(c) == 8 && self.president_markers(c) == 1);
            GameView::lemma_index(c, pub_com);
            assert forall|seat: int| 0 <= seat < 6 && (seat != who || c != pub_com) implies after.shares_at(
                seat,
                c,
            ) == self.shares_at(seat, c) by {}
            assert forall|seat: int| 0 <= seat < 6 implies after.marker_at(seat, c) == self.marker_at(
                seat,
                c,
            ) by {}
        }
        assert forall|c: PubComId|
            #![trigger after.ipo.president(c)]
            #![trigger after.par_track.value(c)]
            #![trigger after.stock_chart.value(c)]
            {
                &&& !after.pool.president(c)
                &&& after.ipo.president(c) ==> after.ipo.count(c) == 8 && after.par_track.value(c) is None
                    && after.stock_chart.value(c) is None
                &&& !after.ipo.president(c) ==> after.par_track.value(c) is Some
                    && after.stock_chart.value(c) is Some
            } by {
            GameView::lemma_index(c, pub_com);
            assert(self.ipo.president(c) ==> self.par_track.value(c) is None);
        }
    }

    /// A share taken from the bank pool is a share more for the buyer: the
    /// shares still add up to 8, and the state stays well-formed.
    pub proof fn lemma_pool_share_taken(self, pub_com: PubComId)
        requires
            self.wf(),
            self.buy_pool_share_allowed(pub_com),
        ensures
            self.pool_share_taken(pub_com, self.stock_chart.value(pub_com)->Some_0 as nat).wf(),
    {
        let value = self.stock_chart.value(pub_com)->Some_0 as nat;
        let after = self.pool_share_taken(pub_com, value);
        let who = self.current_player as int;
        assert(self.players[who].wf());
        assert forall|c: PubComId|
            #![trigger after.shares_total(c)]
            #![trigger after.president_markers(c)]
            after.shares_total(c) == 8 && after.president_markers(c) == 1 by {
            assert(self.shares_total(c) == 8 && self.president_markers(c) == 1);
            GameView::lemma_index(c, pub_com);
            assert forall|seat: int| 0 <= seat < 6 && (seat != who || c != pub_com) implies after.shares_at(
                seat,
                c,
            ) == self.shares_at(seat, c) by {}
            assert forall|seat: int| 0 <= seat < 6 implies after.marker_at(seat, c) == self.marker_at(
                seat,
                c,
            ) by {}
        }
        assert forall|c: PubComId|
            #![trigger after.ipo.president(c)]
            #![trigger after.par_track.value(c)]
            #![trigger after.stock_chart.value(c)]
            {
                &&& !after.pool.president(c)
                &&& after.ipo.president(c) ==> after.ipo.count(c) == 8 && after.par_track.value(c) is None
                    && after.stock_chart.value(c) is None
                &&& !after.ipo.president(c) ==> after.par_track.value(c) is Some
                    && after.stock_chart.value(c) is Some
            } by {
            GameView::lemma_index(c, pub_com);
            assert(!self.pool.president(c));
            assert(self.ipo.president(c) ==> self.par_track.value(c) is None);
        }
    }

    /// A company that floats leaves the ledger as it is.
    pub proof fn lemma_floated(self, pub_com: PubComId, par: nat)
        requires
            self.wf(),
        ensures
            self.floated(pub_com, par).wf(),
            self.floated(pub_com, par) == (GameView {
                pub_coms: self.floated(pub_com, par).pub_coms,
                map: self.floated(pub_com, par).map,
                ..self
            }),
    {
        let after = self.floated(pub_com, par);
        self.map.lemma_place_home_station(pub_com);
        GameView::lemma_index(pub_com, pub_com);
        assert forall|c: PubComId|
            #![trigger after.shares_total(c)]
            #![trigger after.president_markers(c)]
            after.shares_total(c) == 8 && after.president_markers(c) == 1 by {
            assert(self.shares_total(c) == 8 && self.president_markers(c) == 1);
        }
    }

    /// When a presidency is bought, two shares and the president's
    /// certificate go from the initial offering to the buyer: the shares still
    /// add up to 8, and the company has one president's certificate.
    pub proof fn lemma_presidency_ledger(self, pub_com: PubComId, par: u32)
        requires
            self.wf(),
            self.ipo.president(pub_com),
        ensures
            self.presidency_taken(pub_com, par).ledger_balanced(),
    {
        let after = self.presidency_taken(pub_com, par);
        let who = self.current_player as int;
        self.lemma_unsold(pub_com);
        assert(self.players[who].wf());
        assert forall|c: PubComId|
            #![trigger after.shares_total(c)]
            #![trigger after.president_markers(c)]
            after.shares_total(c) == 8 && after.president_markers(c) == 1 by {
            assert(self.shares_total(c) == 8 && self.president_markers(c) == 1);
            GameView::lemma_index(c, pub_com);
            assert forall|seat: int| 0 <= seat < 6 && (seat != who || c != pub_com) implies after.shares_at(
                seat,
                c,
            ) == self.shares_at(seat, c) && after.marker_at(seat, c) == self.marker_at(seat, c) by {}
        }
    }

    /// When a presidency is bought the company gets a par price and a share value.
    pub proof fn lemma_presidency_companies(self, pub_com: PubComId, par: u32)
        requires
            self.wf(),
            self.par_track.offers(par as nat),
            self.ipo.president(pub_com),
        ensures
            self.presidency_taken(pub_com, par).companies_consistent(),
            self.presidency_taken(pub_com, par).stock_chart.wf(),
            self.presidency_taken(pub_com, par).par_track.wf(),
    {
        let after = self.presidency_taken(pub_com, par);
        self.par_track.lemma_add_token(pub_com, par as nat);
        self.stock_chart.lemma_tokens(pub_com, par as nat, 0);
        assert forall|c: PubComId|
            #![trigger after.ipo.president(c)]
            #![trigger after.par_track.value(c)]
            #![trigger after.stock_chart.value(c)]
            {
                &&& !after.pool.president(c)
                &&& after.ipo.president(c) ==> after.ipo.count(c) == 8 && after.par_track.value(c) is None
                    && after.stock_chart.value(c) is None
                &&& !after.ipo.president(c) ==> after.par_track.value(c) is Some
                    && after.stock_chart.value(c) is Some
            } by {
            GameView::lemma_index(c, pub_com);
            assert(!self.pool.president(c));
            assert(self.ipo.president(c) ==> self.par_track.value(c) is None);
            assert(self.ipo.president(c) ==> self.stock_chart.value(c) is None);
            assert(!self.ipo.president(c) ==> self.par_track.value(c) is Some);
            assert(!self.ipo.president(c) ==> self.stock_chart.value(c) is Some);
        }
    }

    /// Buying a presidency keeps a state well-formed.
    pub proof fn lemma_presidency_taken(self, pub_com: PubComId, par: u32)
        requires
            self.wf(),
            self.round is StockRound,
            self.par_track.offers(par as nat),
            self.ipo.president(pub_com),
            self.actor().capital >= 2 * par,
        ensures
            self.presidency_taken(pub_com, par).wf(),
    {
        let after = self.presidency_taken(pub_com, par);
        let who = self.current_player as int;
        self.lemma_presidency_ledger(pub_com, par);
        self.lemma_presidency_companies(pub_com, par);
        self.lemma_unsold(pub_com);
        assert(self.players[who].wf());
        assert(self.shares_at(who, pub_com) == 0);
        assert(self.ipo.count(pub_com) == 8);
        assert(after.ipo.wf());
        assert(after.players[who].wf());
        assert forall|p: int| 0 <= p < after.players.len() implies (#[trigger] after.players[p]).wf()
            && after.players[p].id == p && after.players[p].capital <= u32::MAX by {
            assert(self.players[p].wf());
        }
    }

    /// No player has a share or the president's certificate of a company
    /// whose president's certificate is in the initial offering.
    pub proof fn lemma_unsold(self, pub_com: PubComId)
        requires
            self.wf(),
            self.ipo.president(pub_com),
        ensures
            forall|seat: int|
                0 <= seat < 6 ==> #[trigger] self.shares_at(seat, pub_com) == 0 && self.marker_at(
                    seat,
                    pub_com,
                ) == 0,
    {
        assert(self.ipo.count(pub_com) == 8);
        assert(self.shares_total(pub_com) == 8);
        assert(self.president_markers(pub_com) == 1);
    }

    /// The buyer of a presidency has the certificates they had, and the two
    /// new shares if the company's first share value counts towards the
    /// limit. The other players' certificate counts stay as they are.
    pub proof fn lemma_presidency_certificates(self, pub_com: PubComId, par: u32)
        requires
            self.wf(),
            self.par_track.offers(par as nat),
            self.ipo.president(pub_com),
        ensures
            self.stock_chart.start_value(par as nat) is Some,
            self.presidency_taken(pub_com, par).certificate_count(
                self.presidency_taken(pub_com, par).players[self.current_player as int].shares,
            ) == self.certificate_count(self.actor().shares) + (if self.stock_chart.start_value(
                par as nat,
            )->Some_0 < crate::game::view::SOLD_OUT_VALUE {
                2nat
            } else {
                0nat
            }),
            forall|p: int|
                0 <= p < self.players.len() && p != self.current_player ==> self.presidency_taken(
                    pub_com,
                    par,
                ).certificate_count(#[trigger] self.players[p].shares) == self.certificate_count(
                    self.players[p].shares,
                ),
    {
        let after = self.presidency_taken(pub_com, par);
        let who = self.current_player as int;
        PubComId::lemma_all();
        self.par_track.lemma_add_token(pub_com, par as nat);
        self.stock_chart.lemma_tokens(pub_com, par as nat, 0);
        self.lemma_unsold(pub_com);
        assert(self.players[who].wf());
        assert(self.shares_at(who, pub_com) == 0);
        let k = pub_com.index();
        assert forall|i: int| 0 <= i < 8 && i != k implies after.counts_towards_limit(
            #[trigger] PubComId::all()[i],
        ) == self.counts_towards_limit(PubComId::all()[i]) by {
            GameView::lemma_index(PubComId::all()[i], pub_com);
        }
        let before = self.actor().shares;
        let bought = after.players[who].shares;
        assert forall|i: int| 0 <= i < 8 && i != k implies after.certificates_at(bought, i)
            == self.certificates_at(before, i) by {
            assert(after.counts_towards_limit(PubComId::all()[i]) == self.counts_towards_limit(
                PubComId::all()[i],
            ));
        }
        assert(self.certificates_at(before, k) == 0);
        assert(after.certificates_at(bought, k) == (if self.stock_chart.start_value(par as nat)->Some_0
            < crate::game::view::SOLD_OUT_VALUE {
            2nat
        } else {
            0nat
        }));
        assert forall|p: int| 0 <= p < self.players.len() && p != self.current_player implies after.certificate_count(
            #[trigger] self.players[p].shares,
        ) == self.certificate_count(self.players[p].shares) by {
            let held = self.players[p].shares;
            assert(self.shares_at(p, pub_com) == 0);
            assert(held.counts[k] == 0);
            assert forall|i: int| 0 <= i < 8 implies after.certificates_at(held, i) == self.certificates_at(
                held,
                i,
            ) by {
                if i != k {
                    assert(after.counts_towards_limit(PubComId::all()[i]) == self.counts_towards_limit(
                        PubComId::all()[i],
                    ));
                }
            }
        }
    }

    /// When shares are sold they go from the seller to the bank pool:
    /// the shares still add up to 8, and the state stays well-formed.
    pub proof fn lemma_shares_sold(self, pub_com: PubComId, count: u32)
        requires
            self.wf(),
            self.sell_shares_allowed(pub_com, count),
            self.actor().capital + self.proceeds(pub_com, count) <= u32::MAX,
        ensures
            self.shares_sold(pub_com, count).wf(),
    {
        let after = self.shares_sold(pub_com, count);
        let who = self.current_player as int;
        self.stock_chart.lemma_tokens(pub_com, 0, count as nat);
        assert(self.players[who].wf());
        assert(self.pool.wf());
        assert forall|c: PubComId|
            #![trigger after.shares_total(c)]
            #![trigger after.president_markers(c)]
            after.shares_total(c) == 8 && after.president_markers(c) == 1 by {
            assert(self.shares_total(c) == 8 && self.president_markers(c) == 1);
            GameView::lemma_index(c, pub_com);
            assert forall|seat: int| 0 <= seat < 6 && (seat != who || c != pub_com) implies after.shares_at(
                seat,
                c,
            ) == self.shares_at(seat, c) by {}
            assert forall|seat: int| 0 <= seat < 6 implies after.marker_at(seat, c) == self.marker_at(
                seat,
                c,
            ) by {}
        }
        assert forall|c: PubComId|
            #![trigger after.ipo.president(c)]
            #![trigger after.par_track.value(c)]
            #![trigger after.stock_chart.value(c)]
            {
                &&& !after.pool.president(c)
                &&& after.ipo.president(c) ==> after.ipo.count(c) == 8 && after.par_track.value(c) is None
                    && after.stock_chart.value(c) is None
                &&& !after.ipo.president(c) ==> after.par_track.value(c) is Some
                    && after.stock_chart.value(c) is Some
            } by {
            GameView::lemma_index(c, pub_com);
            assert(!self.pool.president(c));
            assert(self.ipo.president(c) ==> self.stock_chart.value(c) is None);
            assert(!self.ipo.president(c) ==> self.stock_chart.value(c) is Some);
        }
    }
    /// Moving the turn on in the auction keeps a state well-formed, and
    /// changes nothing but whose turn it is.
    pub proof fn lemma_advance_in_auction(self)
        requires
            self.wf(),
            self.round is PrivAuction,
        ensures
            self.advance_in_auction().wf(),
            self.advance_in_auction() == (GameView {
                current_player: self.advance_in_auction().current_player,
                ..self
            }),
    {
        let after = self.advance_in_auction();
        let auction = self.auction();
        if auction.next_player_in_auction() is Some {
            let cur = auction.current->Some_0;
            let top = auction.player_with_max_bid(cur)->Some_0;
            assert(auction.is_max_bidder(top as int, cur));
            auction.lemma_next_bidder(top as int, cur, 1);
        }
        assert forall|c: PubComId|
            #![trigger after.shares_total(c)]
            #![trigger after.president_markers(c)]
            after.shares_total(c) == 8 && after.president_markers(c) == 1 by {
            assert(self.shares_total(c) == 8 && self.president_markers(c) == 1);
        }
    }

    /// A state with the auction replaced by another is well-formed if the
    /// auction is, with as many rows of bids as there are players, and no bid
    /// on the lot exceeds its maker's capital.
    pub proof fn lemma_with_auction(self, after: GameView)
        requires
            self.wf(),
            after.round is PrivAuction,
            after.auction().wf(),
            after.auction().bids.len() == self.players.len(),
            after.auction().passes < self.players.len(),
            after.auction().current matches Some(cur) ==> forall|p: int|
                0 <= p < self.players.len() ==> (#[trigger] after.auction().bid(p, cur) matches Some(b)
                    ==> b <= self.players[p].capital),
            after == (GameView { round: after.round, ..self }),
        ensures
            after.wf(),
    {
        assert forall|c: PubComId|
            #![trigger after.shares_total(c)]
            #![trigger after.president_markers(c)]
            after.shares_total(c) == 8 && after.president_markers(c) == 1 by {
            assert(self.shares_total(c) == 8 && self.president_markers(c) == 1);
        }
    }

    /// A state in which some players have other capital and private
    /// companies, and nothing else has changed, is well-formed outside the auction.
    pub proof fn lemma_with_players(self, after: GameView)
        requires
            self.wf(),
            !(after.round is PrivAuction),
            after.round is OperatingRound ==> after.round->OperatingRound_0.pub_coms_to_operate.len() == 8,
            after.players.len() == self.players.len(),
            after.current_player < self.players.len(),
            after.priority_player < self.players.len(),
            after.passes < self.players.len(),
            forall|p: int|
                0 <= p < self.players.len() ==> (#[trigger] after.players[p]).shares == self.players[p].shares
                    && after.players[p].id == p && after.players[p].priv_coms.len() == 6
                    && after.players[p].capital <= u32::MAX,
            after == (GameView {
                round: after.round,
                players: after.players,
                current_player: after.current_player,
                priority_player: after.priority_player,
                passes: after.passes,
                ..self
            }),
        ensures
            after.wf(),
    {
        assert forall|c: PubComId|
            #![trigger after.shares_total(c)]
            #![trigger after.president_markers(c)]
            after.shares_total(c) == 8 && after.president_markers(c) == 1 by {
            assert(self.shares_total(c) == 8 && self.president_markers(c) == 1);
            assert forall|seat: int| 0 <= seat < 6 implies after.shares_at(seat, c) == self.shares_at(
                seat,
                c,
            ) && after.marker_at(seat, c) == self.marker_at(seat, c) by {}
        }
        assert forall|p: int| 0 <= p < after.players.len() implies (#[trigger] after.players[p]).wf() by {
            assert(self.players[p].wf());
        }
    }

    /// A bid keeps a state well-formed.
    pub proof fn lemma_bid_priv(self, private: PrivComId, amount: u32)
        requires
            self.wf(),
            self.bid_priv_allowed(private, amount),
        ensures
            self.bid_priv(private, amount).wf(),
            (GameView {
                round: RoundView::PrivAuction(
                    self.auction().place_bid(self.current_player as int, private, amount),
                ),
                ..self
            }).wf(),
    {
        let auction = self.auction();
        let who = self.current_player as int;
        let cur = auction.current->Some_0;
        let placed = auction.place_bid(who, private, amount);
        let after = GameView { round: RoundView::PrivAuction(placed), ..self };
        auction.lemma_steps_wf(who, self.actor().capital, private, amount);
        assert(auction.bids[who].len() == 6);
        assert forall|p: int| 0 <= p < self.players.len() implies (#[trigger] placed.bid(p, cur) matches Some(
            b,
        ) ==> b <= self.players[p].capital) by {
            assert(auction.bids[p].len() == 6);
            assert(auction.bid(p, cur) matches Some(b) ==> b <= self.players[p].capital);
            if p == who && private.index() == cur.index() {
                assert(placed.bid(p, cur) == Some(amount));
                assert(auction.amount_at(who, private.index()) <= auction.total_bids(who));
            }
        }
        self.lemma_with_auction(after);
        after.lemma_advance_in_auction();
    }
    /// Collecting the revenue of the private companies keeps a state well-formed.
    pub proof fn lemma_operate_priv_coms(self)
        requires
            self.wf(),
            self.revenue_fits(),
        ensures
            self.operate_priv_coms().wf(),
    {
        let after = self.operate_priv_coms();
        assert forall|c: PubComId|
            #![trigger after.shares_total(c)]
            #![trigger after.president_markers(c)]
            after.shares_total(c) == 8 && after.president_markers(c) == 1 by {
            assert(self.shares_total(c) == 8 && self.president_markers(c) == 1);
            assert forall|seat: int| 0 <= seat < 6 implies after.shares_at(seat, c) == self.shares_at(
                seat,
                c,
            ) && after.marker_at(seat, c) == self.marker_at(seat, c) by {}
        }
        assert forall|p: int| 0 <= p < after.players.len() implies (#[trigger] after.players[p]).wf()
            && after.players[p].id == p && after.players[p].capital <= u32::MAX by {
            assert(self.players[p].wf());
            assert(self.players[p].capital + self.players[p].income() <= u32::MAX);
        }
        if self.round is PrivAuction {
            let auction = self.auction();
            if auction.current is Some {
                let cur = auction.current->Some_0;
                assert forall|p: int| 0 <= p < after.players.len() implies (#[trigger] auction.bid(
                    p,
                    cur,
                ) matches Some(b) ==> b <= after.players[p].capital) by {
                    assert(auction.bid(p, cur) matches Some(b) ==> b <= self.players[p].capital);
                }
            }
        }
    }

    /// The sale of a private company keeps a state well-formed, if the
    /// buyer can pay the price and the auction goes on to a lot without bids.
    pub proof fn lemma_lot_sold(
        self,
        auction: crate::rounds::priv_auction::AuctionView,
        lot: PrivComId,
        seat: int,
        price: nat,
    )
        requires
            self.wf(),
            self.round is PrivAuction,
            auction.wf(),
            auction.bids.len() == self.players.len(),
            auction.passes < self.players.len(),
            0 <= seat < self.players.len(),
            price <= self.players[seat].capital,
            auction.current matches Some(cur) ==> forall|p: int|
                0 <= p < self.players.len() ==> (#[trigger] auction.bid(p, cur)) is None,
        ensures
            self.lot_sold(auction, lot, seat, price).wf(),
    {
        let sold = GameView {
            round: RoundView::PrivAuction(auction),
            ..self.with_player(seat, self.players[seat].buy_priv(lot, price))
        };
        assert(0 <= lot.index() < 6);
        assert(self.players[seat].wf());
        assert(sold.wf()) by {
            assert forall|c: PubComId|
                #![trigger sold.shares_total(c)]
                #![trigger sold.president_markers(c)]
                sold.shares_total(c) == 8 && sold.president_markers(c) == 1 by {
                assert(self.shares_total(c) == 8 && self.president_markers(c) == 1);
                assert forall|s: int| 0 <= s < 6 implies sold.shares_at(s, c) == self.shares_at(s, c)
                    && sold.marker_at(s, c) == self.marker_at(s, c) by {}
            }
            assert forall|p: int| 0 <= p < sold.players.len() implies (#[trigger] sold.players[p]).wf()
                && sold.players[p].id == p && sold.players[p].capital <= u32::MAX by {
                assert(self.players[p].wf());
            }
        }
        if auction.current is None {
            let after = sold.enter_first_stock_round();
            sold.lemma_with_players(after);
        } else {
            sold.lemma_advance_in_auction();
        }
    }

    /// Buying the lot keeps a state well-formed.
    pub proof fn lemma_buy_cheapest_priv(self)
        requires
            self.wf(),
            self.buy_cheapest_priv_allowed(),
        ensures
            self.buy_cheapest_priv().wf(),
    {
        let auction = self.auction();
        let who = self.current_player as int;
        let lot = auction.current->Some_0;
        auction.lemma_steps_wf(who, self.actor().capital, lot, 0);
        let next = auction.buy_current();
        assert(0 <= lot.index() < 6);
        assert(auction.bids[who].len() == 6);
        assert(auction.amount_at(who, lot.index()) <= auction.total_bids(who));
        if next.current is Some {
            let cur = next.current->Some_0;
            PrivComId::lemma_successor(lot);
            assert forall|p: int| 0 <= p < self.players.len() implies (#[trigger] next.bid(p, cur)) is None by {
                assert(auction.bids[p][cur.index()] is None);
            }
        }
        let handed = GameView { priority_player: self.next_seat(), ..self };
        assert(handed.wf()) by {
            assert forall|c: PubComId|
                #![trigger handed.shares_total(c)]
                #![trigger handed.president_markers(c)]
                handed.shares_total(c) == 8 && handed.president_markers(c) == 1 by {
                assert(self.shares_total(c) == 8 && self.president_markers(c) == 1);
            }
        }
        handed.lemma_lot_sold(next, lot, who, lot.spec_cost());
    }

    /// A pass in the auction keeps a state well-formed.
    pub proof fn lemma_pass_in_auction(self)
        requires
            self.wf(),
            self.round is PrivAuction,
            self.pass_allowed(),
            self.pass_fits(),
        ensures
            self.pass_in_auction().wf(),
    {
        let auction = self.auction();
        let who = self.current_player as int;
        let lot = auction.current->Some_0;
        auction.lemma_steps_wf(who, self.actor().capital, lot, 0);
        assert(0 <= lot.index() < 6);
        if auction.in_auction(lot) {
            let next = auction.pass_auction(who);
            let withdrawn = auction.withdraw(who, lot);
            withdrawn.lemma_only_bid(lot);
            assert forall|p: int| 0 <= p < self.players.len() implies (#[trigger] withdrawn.bid(p, lot) matches Some(
                b,
            ) ==> auction.bid(p, lot) == Some(b)) by {
                assert(auction.bids[p].len() == 6);
            }
            match auction.sale_on_pass(who) {
                Some(sale) => {
                    assert(withdrawn.bid(sale.1 as int, lot) == Some(sale.2));
                    assert(auction.bid(sale.1 as int, lot) matches Some(b) ==> b
                        <= self.players[sale.1 as int].capital);
                    if next.current is Some {
                        let cur = next.current->Some_0;
                        PrivComId::lemma_successor(lot);
                        assert forall|p: int| 0 <= p < self.players.len() implies (#[trigger] next.bid(
                            p,
                            cur,
                        )) is None by {
                            assert(auction.bids[p][cur.index()] is None);
                            assert(auction.bids[p].len() == 6);
                        }
                    }
                    self.lemma_lot_sold(next, sale.0, sale.1 as int, sale.2 as nat);
                },
                None => {
                    let after = GameView { round: RoundView::PrivAuction(next), ..self };
                    assert forall|p: int| 0 <= p < self.players.len() implies (#[trigger] next.bid(
                        p,
                        lot,
                    ) matches Some(b) ==> b <= self.players[p].capital) by {
                        assert(auction.bid(p, lot) matches Some(b) ==> b <= self.players[p].capital);
                    }
                    self.lemma_with_auction(after);
                    after.lemma_advance_in_auction();
                },
            }
        } else {
            let next = auction.pass_current(self.players.len());
            let passed = GameView { round: RoundView::PrivAuction(next), ..self };
            assert(next.wf());
            if next.current is Some {
                let cur = next.current->Some_0;
                assert(cur.index() == lot.index());
                assert forall|p: int| 0 <= p < self.players.len() implies (#[trigger] next.bid(p, cur) matches Some(
                    b,
                ) ==> b <= self.players[p].capital) by {
                    assert(auction.bid(p, lot) matches Some(b) ==> b <= self.players[p].capital);
                }
            }
            self.lemma_with_auction(passed);
            if auction.passes + 1 == self.players.len() && !(lot is DAndR) {
                assert(passed.revenue_fits());
                passed.lemma_operate_priv_coms();
                passed.operate_priv_coms().lemma_advance_in_auction();
            } else {
                passed.lemma_advance_in_auction();
            }
        }
    }

    /// The president of a company is a player of the game.
    pub proof fn lemma_president(self, pub_com: PubComId)
        ensures
            self.president(pub_com) matches Some(p) ==> p < self.players.len() && self.players[p as int].shares.president(
                pub_com,
            ),
    {
    }

    /// A pass in a stock round keeps a state well-formed.
    pub proof fn lemma_pass_in_stock_round(self)
        requires
            self.wf(),
            self.round is StockRound,
            self.pass_fits(),
        ensures
            self.pass_in_stock_round().wf(),
    {
        let after = self.pass_in_stock_round();
        if self.passes + 1 == self.players.len() {
            let reset = GameView { passes: 0, ..self };
            let entered = GameView {
                round: RoundView::OperatingRound(
                    crate::rounds::operating_round::OperatingRoundView {
                        operating_rounds_left: (self.phase.spec_operating_round_count() - 1) as u32,
                        pub_coms_to_operate: Seq::new(
                            8,
                            |i: int| self.stock_chart.value(PubComId::all()[i]) is Some,
                        ),
                    },
                ),
                ..reset
            };
            self.lemma_with_players(entered);
            assert(entered.revenue_fits());
            entered.lemma_operate_priv_coms();
            let collected = entered.operate_priv_coms();
            if collected.current_pub_com() is Some {
                let first = collected.current_pub_com()->Some_0;
                collected.lemma_president(first);
                if collected.president(first) is Some {
                    collected.lemma_with_players(after);
                }
            }
        } else {
            self.lemma_with_players(after);
        }
    }
    /// A state that differs from a well-formed one only in who has
    /// priority deal, and has it at a seat of the game, is well-formed.
    pub proof fn lemma_same_ledger(self, before: GameView)
        requires
            before.wf(),
            self.priority_player < before.players.len(),
            self == (GameView { priority_player: self.priority_player, ..before }),
        ensures
            self.wf(),
    {
        assert forall|c: PubComId|
            #![trigger self.shares_total(c)]
            #![trigger self.president_markers(c)]
            self.shares_total(c) == 8 && self.president_markers(c) == 1 by {
            assert(before.shares_total(c) == 8 && before.president_markers(c) == 1);
        }
    }

    /// While a lot is left after a sale, the state after the sale and
    /// before the turn moves on is well-formed too.
    pub proof fn lemma_lot_sold_parts(
        self,
        auction: crate::rounds::priv_auction::AuctionView,
        lot: PrivComId,
        seat: int,
        price: nat,
    )
        requires
            self.wf(),
            self.round is PrivAuction,
            auction.current is Some,
            self.lot_sold(auction, lot, seat, price).wf(),
            0 <= seat < self.players.len(),
            price <= self.players[seat].capital,
        ensures
            (GameView {
                round: RoundView::PrivAuction(auction),
                ..self.with_player(seat, self.players[seat].buy_priv(lot, price))
            }).wf(),
    {
        let sold = GameView {
            round: RoundView::PrivAuction(auction),
            ..self.with_player(seat, self.players[seat].buy_priv(lot, price))
        };
        let after = self.lot_sold(auction, lot, seat, price);
        assert(after == sold.advance_in_auction());
        assert(after.round == sold.round);
        assert(after.players == sold.players);
        assert(0 <= lot.index() < 6);
        assert(self.players[seat].wf());
        assert forall|c: PubComId|
            #![trigger sold.shares_total(c)]
            #![trigger sold.president_markers(c)]
            sold.shares_total(c) == 8 && sold.president_markers(c) == 1 by {
            assert(self.shares_total(c) == 8 && self.president_markers(c) == 1);
            assert forall|s: int| 0 <= s < 6 implies sold.shares_at(s, c) == self.shares_at(s, c)
                && sold.marker_at(s, c) == self.marker_at(s, c) by {}
        }
        assert forall|p: int| 0 <= p < sold.players.len() implies (#[trigger] sold.players[p]).wf()
            && sold.players[p].id == p && sold.players[p].capital <= u32::MAX by {
            assert(self.players[p].wf());
            assert(after.players[p].wf());
        }
    }
    /// The states that a pass in the auction goes through before the turn
    /// moves on are well-formed.
    pub proof fn lemma_passed_on(self, between: GameView)
        requires
            self.wf(),
            self.round is PrivAuction,
            self.pass_allowed(),
            self.pass_fits(),
            ({
                let auction = self.auction();
                let who = self.current_player as int;
                let lot = auction.current->Some_0;
                let withdrawn = GameView {
                    round: RoundView::PrivAuction(auction.pass_auction(who)),
                    ..self
                };
                let passed = GameView {
                    round: RoundView::PrivAuction(auction.pass_current(self.players.len())),
                    ..self
                };
                ||| auction.in_auction(lot) && auction.sale_on_pass(who) is None && between == withdrawn
                ||| !auction.in_auction(lot) && between == passed
                ||| !auction.in_auction(lot) && auction.passes + 1 == self.players.len() && !(lot is DAndR)
                    && between == passed.operate_priv_coms()
            }),
        ensures
            between.wf(),
    {
        let auction = self.auction();
        let who = self.current_player as int;
        let lot = auction.current->Some_0;
        auction.lemma_steps_wf(who, self.actor().capital, lot, 0);
        assert(0 <= lot.index() < 6);
        if auction.in_auction(lot) {
            let next = auction.pass_auction(who);
            let after = GameView { round: RoundView::PrivAuction(next), ..self };
            assert forall|p: int| 0 <= p < self.players.len() implies (#[trigger] next.bid(p, lot) matches Some(
                b,
            ) ==> b <= self.players[p].capital) by {
                assert(auction.bids[p].len() == 6);
                assert(auction.bid(p, lot) matches Some(b) ==> b <= self.players[p].capital);
            }
            self.lemma_with_auction(after);
        } else {
            let next = auction.pass_current(self.players.len());
            let passed = GameView { round: RoundView::PrivAuction(next), ..self };
            if next.current is Some {
                let cur = next.current->Some_0;
                assert(cur.index() == lot.index());
                assert forall|p: int| 0 <= p < self.players.len() implies (#[trigger] next.bid(p, cur) matches Some(
                    b,
                ) ==> b <= self.players[p].capital) by {
                    assert(auction.bid(p, lot) matches Some(b) ==> b <= self.players[p].capital);
                }
            }
            self.lemma_with_auction(passed);
            if between != passed {
                assert(passed.revenue_fits());
                passed.lemma_operate_priv_coms();
            }
        }
    }
    /// A pass keeps a state well-formed.
    pub proof fn lemma_pass(self)
        requires
            self.wf(),
            self.pass_allowed(),
            self.pass_fits(),
        ensures
            self.pass().wf(),
    {
        if self.round is PrivAuction {
            self.lemma_pass_in_auction();
        } else if self.round is StockRound {
            self.lemma_pass_in_stock_round();
        }
    }

    /// The purchase of a share from the initial offering keeps a state
    /// well-formed and the players within the certificate limit.
    pub proof fn lemma_buy_ipo_share(self, pub_com: PubComId)
        requires
            self.wf(),
            self.buy_ipo_share_allowed(pub_com),
        ensures
            self.buy_ipo_share(pub_com).wf(),
            self.buy_ipo_share(pub_com).within_limit(self.current_player as int),
            forall|p: int|
                0 <= p < self.players.len() && self.within_limit(p) ==> #[trigger] self.buy_ipo_share(
                    pub_com,
                ).within_limit(p),
    {
        let par = self.par_track.value(pub_com)->Some_0 as nat;
        let taken = self.ipo_share_taken(pub_com, par);
        self.lemma_ipo_share_taken(pub_com);
        taken.lemma_update_president(pub_com);
        let counted = taken.update_president(pub_com);
        counted.lemma_floated(pub_com, par);
        let floated = counted.floated(pub_com, par);
        floated.lemma_turn_ended();
        let after = self.buy_ipo_share(pub_com);
        assert(after.stock_chart == self.stock_chart);
        assert forall|p: int| 0 <= p < self.players.len() implies (#[trigger] after.players[p]).shares.counts
            == taken.players[p].shares.counts by {
            assert(counted.players[p].shares.counts == taken.players[p].shares.counts);
        }
        self.lemma_same_certificates(after, taken);
    }

    /// The purchase of a share from the bank pool keeps a state
    /// well-formed and the players within the certificate limit.
    pub proof fn lemma_buy_pool_share(self, pub_com: PubComId)
        requires
            self.wf(),
            self.buy_pool_share_allowed(pub_com),
        ensures
            self.buy_pool_share(pub_com).wf(),
            self.buy_pool_share(pub_com).within_limit(self.current_player as int),
            forall|p: int|
                0 <= p < self.players.len() && self.within_limit(p) ==> #[trigger] self.buy_pool_share(
                    pub_com,
                ).within_limit(p),
    {
        let value = self.stock_chart.value(pub_com)->Some_0 as nat;
        let taken = self.pool_share_taken(pub_com, value);
        self.lemma_pool_share_taken(pub_com);
        taken.lemma_update_president(pub_com);
        let counted = taken.update_president(pub_com);
        counted.lemma_turn_ended();
        let after = self.buy_pool_share(pub_com);
        assert(after.stock_chart == self.stock_chart);
        assert forall|p: int| 0 <= p < self.players.len() implies (#[trigger] after.players[p]).shares.counts
            == taken.players[p].shares.counts by {
            assert(counted.players[p].shares.counts == taken.players[p].shares.counts);
        }
        self.lemma_same_certificates(after, taken);
    }

    /// Two states with the same share values give the same certificate
    /// count to holders of the same numbers of shares.
    pub proof fn lemma_same_certificates(self, a: GameView, b: GameView)
        requires
            a.stock_chart == self.stock_chart,
            b.stock_chart == self.stock_chart,
            a.players.len() == b.players.len(),
            forall|p: int|
                0 <= p < a.players.len() ==> (#[trigger] a.players[p]).shares.counts
                    == b.players[p].shares.counts,
        ensures
            forall|p: int|
                0 <= p < a.players.len() ==> a.certificate_count((#[trigger] a.players[p]).shares)
                    == self.certificate_count(b.players[p].shares),
    {
        assert forall|p: int| 0 <= p < a.players.len() implies a.certificate_count(
            (#[trigger] a.players[p]).shares,
        ) == self.certificate_count(b.players[p].shares) by {
            let x = a.players[p].shares;
            let y = b.players[p].shares;
            assert(x.counts == y.counts);
            assert forall|i: int| 0 <= i < 8 implies a.certificates_at(x, i) == self.certificates_at(y, i) by {}
        }
    }

    /// The purchase of a presidency keeps a state well-formed and the
    /// players within the certificate limit.
    pub proof fn lemma_buy_presidency(self, pub_com: PubComId, par: u32)
        requires
            self.wf(),
            self.buy_presidency_allowed(pub_com, par),
        ensures
            self.buy_presidency(pub_com, par).wf(),
            self.buy_presidency(pub_com, par).within_limit(self.current_player as int),
            forall|p: int|
                0 <= p < self.players.len() && self.within_limit(p) ==> #[trigger] self.buy_presidency(
                    pub_com,
                    par,
                ).within_limit(p),
    {
        let taken = self.presidency_taken(pub_com, par);
        self.lemma_presidency_taken(pub_com, par);
        self.lemma_presidency_certificates(pub_com, par);
        taken.lemma_turn_ended();
        let after = self.buy_presidency(pub_com, par);
        taken.lemma_same_certificates(after, taken);
        assert forall|p: int| 0 <= p < self.players.len() && self.within_limit(p) implies #[trigger] after.within_limit(
            p,
        ) by {
            if p != self.current_player {
                assert(taken.players[p] == self.players[p]);
                assert(taken.certificate_count(self.players[p].shares) == self.certificate_count(
                    self.players[p].shares,
                ));
            }
        }
    }

    /// A sale keeps a state well-formed. It keeps the players within the
    /// certificate limit unless it makes the company's shares count towards
    /// the limit again.
    pub proof fn lemma_sell_shares(self, pub_com: PubComId, count: u32)
        requires
            self.wf(),
            self.sell_shares_allowed(pub_com, count),
            self.actor().capital + self.proceeds(pub_com, count) <= u32::MAX,
        ensures
            self.sell_shares(pub_com, count).wf(),
            self.counts_towards_limit(pub_com) || !self.sell_shares(pub_com, count).counts_towards_limit(
                pub_com,
            ) ==> forall|p: int|
                0 <= p < self.players.len() && self.within_limit(p) ==> #[trigger] self.sell_shares(
                    pub_com,
                    count,
                ).within_limit(p),
    {
        let sold = self.shares_sold(pub_com, count);
        self.lemma_shares_sold(pub_com, count);
        sold.lemma_update_president(pub_com);
        let after = self.sell_shares(pub_com, count);
        let who = self.current_player as int;
        self.stock_chart.lemma_tokens(pub_com, 0, count as nat);
        PubComId::lemma_all();
        let k = pub_com.index();
        if self.counts_towards_limit(pub_com) || !after.counts_towards_limit(pub_com) {
            assert forall|p: int| 0 <= p < self.players.len() && self.within_limit(p) implies #[trigger] after.within_limit(
                p,
            ) by {
                let x = after.players[p].shares;
                let y = self.players[p].shares;
                assert(self.players[p].wf());
                assert(x.counts == sold.players[p].shares.counts);
                assert forall|i: int| 0 <= i < 8 implies after.certificates_at(x, i) <= self.certificates_at(
                    y,
                    i,
                ) by {
                    if i != k {
                        GameView::lemma_index(PubComId::all()[i], pub_com);
                        assert(after.stock_chart.value(PubComId::all()[i]) == self.stock_chart.value(
                            PubComId::all()[i],
                        ));
                    }
                }
            }
        }
    }

    /// A bid and the purchase of a private company leave shares and share values as they are.
    pub proof fn lemma_auction_keeps_shares(self, action: crate::game::action::Action)
        requires
            self.wf(),
            self.allowed(action),
            action is BidPriv || action is BuyCheapestPriv,
        ensures
            forall|p: int|
                0 <= p < self.players.len() && self.within_limit(p) ==> #[trigger] self.step(
                    action,
                ).within_limit(p),
    {
        let after = self.step(action);
        assert(after.stock_chart == self.stock_chart);
        assert(after.players.len() == self.players.len());
        assert forall|p: int| 0 <= p < self.players.len() implies (#[trigger] after.players[p]).shares
            == self.players[p].shares by {}
        self.lemma_same_certificates(after, self);
    }

    /// A pass leaves shares and share values as they are.
    pub proof fn lemma_pass_keeps_shares(self)
        requires
            self.wf(),
            self.pass_allowed(),
        ensures
            forall|p: int|
                0 <= p < self.players.len() && self.within_limit(p) ==> #[trigger] self.pass().within_limit(
                    p,
                ),
    {
        let after = self.pass();
        assert(after.stock_chart == self.stock_chart);
        assert(after.players.len() == self.players.len());
        if self.round is PrivAuction {
            let auction = self.auction();
            let who = self.current_player as int;
            let lot = auction.current->Some_0;
            if auction.in_auction(lot) {
                auction.withdraw(who, lot).lemma_only_bid(lot);
            }
        }
        assert forall|p: int| 0 <= p < self.players.len() implies (#[trigger] after.players[p]).shares
            == self.players[p].shares by {}
        self.lemma_same_certificates(after, self);
    }
}

} // verus!
