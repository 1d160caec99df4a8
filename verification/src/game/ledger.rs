//! A record of the ledger of a game: who has what capital and which
//! shares. It can be taken from a game and given back to it.

use crate::economy::shares::{Shares, SharesView};
use crate::game::action::Action;
use crate::game::view::GameView;
use crate::game::Game;
use crate::ids::{PubComId, RoundId, RoundView};
use vstd::prelude::*;

verus! {

/// A record of the ledger: the capital and the shares of each player, by
/// seat, and the shares in the initial offering and in the bank pool.
#[verifier::ext_equal]
pub struct LedgerView {
    pub capital: Seq<nat>,
    pub shares: Seq<SharesView>,
    pub ipo: SharesView,
    pub pool: SharesView,
}

/// A record of the ledger of a game
#[derive(Clone, Debug)]
pub struct Ledger {
    capital: Vec<u32>,
    shares: Vec<Shares>,
    ipo: Shares,
    pool: Shares,
}

impl View for Ledger {
    type V = LedgerView;

    closed spec fn view(&self) -> LedgerView {
        LedgerView {
            capital: Seq::new(self.capital@.len(), |p: int| self.capital@[p] as nat),
            shares: Seq::new(self.shares@.len(), |p: int| self.shares@[p]@),
            ipo: self.ipo@,
            pool: self.pool@,
        }
    }
}

impl GameView {
    /// The record of the ledger of this state.
    pub open spec fn ledger(self) -> LedgerView {
        LedgerView {
            capital: Seq::new(self.players.len(), |p: int| self.players[p].capital),
            shares: Seq::new(self.players.len(), |p: int| self.players[p].shares),
            ipo: self.ipo,
            pool: self.pool,
        }
    }

    /// This state with the ledger of a record.
    pub open spec fn with_ledger(self, ledger: LedgerView) -> GameView {
        GameView {
            players: Seq::new(
                self.players.len(),
                |p: int| self.players[p].with_ledger(ledger.capital[p], ledger.shares[p]),
            ),
            ipo: ledger.ipo,
            pool: ledger.pool,
            ..self
        }
    }

    /// Whether the shares of `pub_com` add up to 8, one holder has its
    /// president's certificate, and its par price and share value go with
    /// where the certificate is.
    pub open spec fn company_fits(self, pub_com: PubComId) -> bool {
        &&& self.shares_total(pub_com) == 8
        &&& self.president_markers(pub_com) == 1
        &&& !self.pool.president(pub_com)
        &&& self.ipo.president(pub_com) ==> self.ipo.count(pub_com) == 8 && self.par_track.value(
            pub_com,
        ) is None && self.stock_chart.value(pub_com) is None
        &&& !self.ipo.president(pub_com) ==> self.par_track.value(pub_com) is Some
            && self.stock_chart.value(pub_com) is Some
    }

    /// Whether, in the auction, no bid on the lot exceeds its maker's capital.
    pub open spec fn bids_covered(self) -> bool {
        self.round matches RoundView::PrivAuction(auction) ==> (auction.current matches Some(cur)
            ==> forall|p: int|
            0 <= p < self.players.len() ==> (#[trigger] auction.bid(p, cur) matches Some(b) ==> b
                <= self.players[p].capital))
    }

    /// In a state that a game can be in every company fits, and the bids are covered.
    pub proof fn lemma_fits(self, pub_com: PubComId)
        ensures
            self.wf() ==> self.company_fits(pub_com) && self.bids_covered(),
    {
        if self.wf() {
            assert(self.shares_total(pub_com) == 8 && self.president_markers(pub_com) == 1);
            assert(!self.pool.president(pub_com));
            assert(self.ipo.president(pub_com) ==> self.par_track.value(pub_com) is None);
            assert(self.ipo.president(pub_com) ==> self.stock_chart.value(pub_com) is None);
        }
    }

    /// A record fits a state if it lists as many players, its holdings
    /// are well-formed, every company fits and the bids are covered.
    pub proof fn lemma_ledger_fits(self, ledger: LedgerView)
        requires
            self.wf(),
            ledger.capital.len() == self.players.len(),
            ledger.shares.len() == self.players.len(),
            forall|k: int| 0 <= k < 8 ==> self.with_ledger(ledger).company_fits(#[trigger] PubComId::all()[k]),
            self.with_ledger(ledger).bids_covered(),
        ensures
            (ledger.ipo.wf() && ledger.pool.wf() && (forall|p: int|
                0 <= p < self.players.len() ==> (#[trigger] ledger.shares[p]).wf() && ledger.capital[p]
                    <= u32::MAX)) ==> self.ledger_fits(ledger),
    {
        let after = self.with_ledger(ledger);
        PubComId::lemma_all();
        if ledger.ipo.wf() && ledger.pool.wf() && (forall|p: int|
            0 <= p < self.players.len() ==> (#[trigger] ledger.shares[p]).wf() && ledger.capital[p]
                <= u32::MAX) {
            assert forall|c: PubComId|
                #![trigger after.shares_total(c)]
                #![trigger after.president_markers(c)]
                after.shares_total(c) == 8 && after.president_markers(c) == 1 by {
                assert(after.company_fits(PubComId::all()[c.index()]));
            }
            assert forall|c: PubComId|
                #![trigger after.ipo.president(c)]
                #![trigger after.par_track.value(c)]
                #![trigger after.stock_chart.value(c)]
                {
                    &&& !after.pool.president(c)
                    &&& after.ipo.president(c) ==> after.ipo.count(c) == 8 && after.par_track.value(c) is None
                        && after.stock_chart.value(c) is None
                    &&& !after.ipo.president(c) ==> after.par_track.value(c) is Some
                        && after.stock_chart.value(c) is Some
                } by {
                assert(after.company_fits(PubComId::all()[c.index()]));
            }
            assert forall|p: int| 0 <= p < after.players.len() implies (#[trigger] after.players[p]).wf()
                && after.players[p].id == p && after.players[p].capital <= u32::MAX by {
                assert(self.players[p].wf());
                assert(ledger.shares[p].wf());
            }
            assert(after.round_consistent());
        }
    }

    /// Whether a record can be the ledger of this state: it lists as many
    /// players, and with it the state is one that a game can be in.
    pub open spec fn ledger_fits(self, ledger: LedgerView) -> bool {
        &&& ledger.capital.len() == self.players.len()
        &&& ledger.shares.len() == self.players.len()
        &&& self.with_ledger(ledger).wf()
    }

    /// The state after the record was given to it, where it fits; else the state as it is.
    pub open spec fn restore_ledger(self, ledger: LedgerView) -> GameView {
        if self.ledger_fits(ledger) {
            self.with_ledger(ledger)
        } else {
            self
        }
    }

    /// A state to which its own record of the ledger is given back is the
    /// state that it was, so every move is legal after that if and only if it
    /// was before.
    pub proof fn lemma_ledger_round_trip(self, action: Action)
        requires
            self.wf(),
        ensures
            self.ledger_fits(self.ledger()),
            self.restore_ledger(self.ledger()) == self,
            self.restore_ledger(self.ledger()).allowed(action) == self.allowed(action),
    {
        assert(self.with_ledger(self.ledger()) =~~= self);
    }

    /// A state that differs from another in nothing but the ledger is that
    /// other state once it is given the other's record: the same moves are
    /// legal in both.
    pub proof fn lemma_ledger_restores(self, other: GameView, action: Action)
        requires
            self.wf(),
            other.players.len() == self.players.len(),
            forall|p: int|
                0 <= p < self.players.len() ==> (#[trigger] other.players[p]).id == self.players[p].id
                    && other.players[p].priv_coms == self.players[p].priv_coms,
            other == (GameView { players: other.players, ipo: other.ipo, pool: other.pool, ..self }),
        ensures
            other.ledger_fits(self.ledger()),
            other.restore_ledger(self.ledger()) == self,
            other.restore_ledger(self.ledger()).allowed(action) == self.allowed(action),
    {
        assert(other.with_ledger(self.ledger()) =~~= self);
    }
}

impl Ledger {
    /// Returns a record of the ledger with the capital and the shares of
    /// each player, by seat, and the shares in the initial offering and in
    /// the bank pool
    pub fn new(capital: Vec<u32>, shares: Vec<Shares>, ipo: Shares, pool: Shares) -> (r: Self)
        ensures
            r@ == (LedgerView {
                capital: Seq::new(capital@.len(), |p: int| capital@[p] as nat),
                shares: Seq::new(shares@.len(), |p: int| shares@[p]@),
                ipo: ipo@,
                pool: pool@,
            }),
    {
        Ledger { capital, shares, ipo, pool }
    }

    /// Returns the number of players with capital in this record
    pub fn player_count(&self) -> (n: usize)
        ensures
            n == self@.capital.len(),
    {
        self.capital.len()
    }

    /// Returns the capital of the player at `seat`
    pub fn capital(&self, seat: usize) -> (r: u32)
        requires
            seat < self@.capital.len(),
        ensures
            r == self@.capital[seat as int],
    {
        self.capital[seat]
    }

    /// Returns the shares of the player at `seat`
    pub fn shares(&self, seat: usize) -> (r: &Shares)
        requires
            seat < self@.shares.len(),
        ensures
            r@ == self@.shares[seat as int],
            r@.wf(),
    {
        self.shares[seat].checked()
    }

    /// Returns the shares in the initial offering
    pub fn ipo(&self) -> (r: &Shares)
        ensures
            r@ == self@.ipo,
            r@.wf(),
    {
        self.ipo.checked()
    }

    /// Returns the shares in the bank pool
    pub fn pool(&self) -> (r: &Shares)
        ensures
            r@ == self@.pool,
            r@.wf(),
    {
        self.pool.checked()
    }
}

impl Game {
    /// Returns a record of the ledger of this `Game`
    pub fn ledger(&self) -> (r: Ledger)
        ensures
            r@ == self@.ledger(),
    {
        let mut capital: Vec<u32> = Vec::new();
        let mut shares: Vec<Shares> = Vec::new();
        let mut i: usize = 0;
        while i < self.players.len()
            invariant
                i <= self.players.len(),
                capital@.len() == i,
                shares@.len() == i,
                forall|p: int| 0 <= p < i ==> (#[trigger] capital@[p]) == self@.players[p].capital,
                forall|p: int| 0 <= p < i ==> (#[trigger] shares@[p])@ == self@.players[p].shares,
            decreases self.players.len() - i,
        {
            capital.push(self.players[i].capital());
            shares.push(*self.players[i].shares());
            i = i + 1;
        }
        let r = Ledger { capital, shares, ipo: self.ipo, pool: self.pool };
        assert(r@ =~~= self@.ledger());
        r
    }
    /// Returns the shares of `pub_com` that the players of a record have
    /// together, and how many of them have its president's certificate
    fn ledger_holdings(&self, ledger: &Ledger, pub_com: PubComId) -> (r: (u32, u32))
        requires
            self@.wf(),
            ledger@.capital.len() == self@.players.len(),
            ledger@.shares.len() == self@.players.len(),
        ensures
            r.0 == self@.with_ledger(ledger@).player_shares(pub_com),
            r.1 == self@.with_ledger(ledger@).president_markers(pub_com) - (if ledger@.ipo.president(
                pub_com,
            ) {
                1nat
            } else {
                0nat
            }) - (if ledger@.pool.president(pub_com) {
                1nat
            } else {
                0nat
            }),
            r.0 <= 48,
            r.1 <= 6,
            forall|q: int| 0 <= q < self@.players.len() ==> (#[trigger] ledger@.shares[q]).wf(),
    {
        let ghost after = self@.with_ledger(ledger@);
        let count: usize = self.players.len();
        let mut total: u32 = 0;
        let mut markers: u32 = 0;
        let mut p: usize = 0;
        while p < 6
            invariant
                p <= 6,
                count == self@.players.len(),
                count <= 6,
                ledger@.shares.len() == count,
                after == self@.with_ledger(ledger@),
                total <= 8 * p,
                markers <= p,
                forall|q: int| 0 <= q < p && q < count ==> (#[trigger] ledger@.shares[q]).wf(),
                total == (if p > 0 { after.shares_at(0, pub_com) } else { 0 })
                    + (if p > 1 { after.shares_at(1, pub_com) } else { 0 })
                    + (if p > 2 { after.shares_at(2, pub_com) } else { 0 })
                    + (if p > 3 { after.shares_at(3, pub_com) } else { 0 })
                    + (if p > 4 { after.shares_at(4, pub_com) } else { 0 })
                    + (if p > 5 { after.shares_at(5, pub_com) } else { 0 }),
                markers == (if p > 0 { after.marker_at(0, pub_com) } else { 0 })
                    + (if p > 1 { after.marker_at(1, pub_com) } else { 0 })
                    + (if p > 2 { after.marker_at(2, pub_com) } else { 0 })
                    + (if p > 3 { after.marker_at(3, pub_com) } else { 0 })
                    + (if p > 4 { after.marker_at(4, pub_com) } else { 0 })
                    + (if p > 5 { after.marker_at(5, pub_com) } else { 0 }),
            decreases 6 - p,
        {
            if p < count {
                let shares = ledger.shares(p);
                assert(after.players[p as int].shares == shares@);
                total = total + shares.count(pub_com);
                if shares.president(pub_com) {
                    markers = markers + 1;
                }
            }
            p = p + 1;
        }
        (total, markers)
    }

    /// Returns whether the shares of `pub_com` in a record add up to 8, one
    /// holder has its president's certificate, and its par price and share
    /// value go with where the certificate is
    fn ledger_company_fits(&self, ledger: &Ledger, pub_com: PubComId) -> (b: bool)
        requires
            self@.wf(),
            ledger@.capital.len() == self@.players.len(),
            ledger@.shares.len() == self@.players.len(),
        ensures
            b == self@.with_ledger(ledger@).company_fits(pub_com),
            ledger@.ipo.wf(),
            ledger@.pool.wf(),
            forall|q: int| 0 <= q < self@.players.len() ==> (#[trigger] ledger@.shares[q]).wf(),
    {
        let held = self.ledger_holdings(ledger, pub_com);
        let ipo = ledger.ipo();
        let pool = ledger.pool();
        let in_ipo: u32 = if ipo.president(pub_com) {
            1
        } else {
            0
        };
        let in_pool: u32 = if pool.president(pub_com) {
            1
        } else {
            0
        };
        held.0 + ipo.count(pub_com) + pool.count(pub_com) == 8 && held.1 + in_ipo + in_pool == 1
            && !pool.president(pub_com) && if ipo.president(pub_com) {
            ipo.count(pub_com) == 8 && self.par_track.value(pub_com).is_none() && self.stock_chart.value(
                pub_com,
            ).is_none()
        } else {
            self.par_track.value(pub_com).is_some() && self.stock_chart.value(pub_com).is_some()
        }
    }

    /// Returns whether no bid on the current private company exceeds the
    /// capital that its maker has in a record
    fn ledger_covers_bids(&self, ledger: &Ledger) -> (b: bool)
        requires
            self@.wf(),
            ledger@.capital.len() == self@.players.len(),
            ledger@.shares.len() == self@.players.len(),
        ensures
            b == self@.with_ledger(ledger@).bids_covered(),
    {
        match &self.round {
            RoundId::PrivAuction(priv_auction) => {
                match priv_auction.current() {
                    Some(lot) => {
                        let ghost after = self@.with_ledger(ledger@);
                        let mut p: usize = 0;
                        while p < self.players.len()
                            invariant
                                p <= self.players.len(),
                                self@.wf(),
                                self@.round == RoundView::PrivAuction(priv_auction@),
                                priv_auction@.current == Some(lot),
                                ledger@.capital.len() == self@.players.len(),
                                after == self@.with_ledger(ledger@),
                                forall|q: int|
                                    0 <= q < p ==> (#[trigger] priv_auction@.bid(q, lot) matches Some(b)
                                        ==> b <= after.players[q].capital),
                            decreases self.players.len() - p,
                        {
                            assert(self@.players[p as int].id == p);
                            assert(after.players[p as int].capital == ledger@.capital[p as int]);
                            match priv_auction.bids(&self.players[p])[lot.ordinal()] {
                                Some(bid) => {
                                    if bid > ledger.capital(p) {
                                        assert(priv_auction@.bid(p as int, lot) == Some(bid));
                                        return false;
                                    }
                                },
                                None => {},
                            }
                            p = p + 1;
                        }
                        true
                    },
                    None => true,
                }
            },
            _ => true,
        }
    }

    /// Returns whether a record can be the ledger of this `Game`
    pub fn ledger_fits(&self, ledger: &Ledger) -> (b: bool)
        requires
            self@.wf(),
        ensures
            b == self@.ledger_fits(ledger@),
    {
        if ledger.capital.len() != self.players.len() || ledger.shares.len() != self.players.len() {
            return false;
        }
        let ghost after = self@.with_ledger(ledger@);
        let mut i: usize = 0;
        while i < 8
            invariant
                i <= 8,
                self@.wf(),
                ledger@.capital.len() == self@.players.len(),
                ledger@.shares.len() == self@.players.len(),
                after == self@.with_ledger(ledger@),
                forall|k: int| 0 <= k < i ==> after.company_fits(#[trigger] PubComId::all()[k]),
                i > 0 ==> ledger@.ipo.wf() && ledger@.pool.wf() && forall|q: int|
                    0 <= q < self@.players.len() ==> (#[trigger] ledger@.shares[q]).wf(),
            decreases 8 - i,
        {
            if !self.ledger_company_fits(ledger, PubComId::from_ordinal(i)) {
                proof {
                    after.lemma_fits(PubComId::all()[i as int]);
                }
                return false;
            }
            i = i + 1;
        }
        if !self.ledger_covers_bids(ledger) {
            proof {
                after.lemma_fits(PubComId::BAndO);
            }
            return false;
        }
        proof {
            assert forall|q: int| 0 <= q < self@.players.len() implies (#[trigger] ledger@.capital[q])
                <= u32::MAX by {}
            self@.lemma_ledger_fits(ledger@);
        }
        true
    }

    /// Gives a record of the ledger to this `Game`, if it fits, and
    /// returns whether it did
    pub fn restore_ledger(&mut self, ledger: &Ledger) -> (done: bool)
        requires
            old(self)@.wf(),
        ensures
            done == old(self)@.ledger_fits(ledger@),
            final(self)@ == old(self)@.restore_ledger(ledger@),
            final(self)@.wf(),
    {
        if !self.ledger_fits(ledger) {
            return false;
        }
        let count: usize = self.players.len();
        let mut p: usize = 0;
        while p < count
            invariant
                p <= count,
                count == self.players@.len(),
                count == old(self).players@.len(),
                ledger@.capital.len() == count,
                ledger@.shares.len() == count,
                self.round == old(self).round,
                self.phase == old(self).phase,
                self.current_player == old(self).current_player,
                self.priority_player == old(self).priority_player,
                self.passes == old(self).passes,
                self.pub_coms == old(self).pub_coms,
                self.map == old(self).map,
                self.tile_set == old(self).tile_set,
                self.train_set == old(self).train_set,
                self.stock_chart == old(self).stock_chart,
                self.par_track == old(self).par_track,
                self.buy_back_blocked == old(self).buy_back_blocked,
                forall|q: int| p <= q < count ==> #[trigger] self.players@[q] == old(self).players@[q],
                forall|q: int|
                    0 <= q < p ==> (#[trigger] self.players@[q])@ == old(self).players@[q]@.with_ledger(
                        ledger@.capital[q],
                        ledger@.shares[q],
                    ),
            decreases count - p,
        {
            let capital: u32 = ledger.capital(p);
            let shares: Shares = *ledger.shares(p);
            self.players[p].restore(capital, shares);
            p = p + 1;
        }
        self.ipo = *ledger.ipo();
        self.pool = *ledger.pool();
        assert(self@ =~~= old(self)@.with_ledger(ledger@));
        true
    }
}

} // verus!
