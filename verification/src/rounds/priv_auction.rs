//! The auction in which the private companies are sold, the cheapest first.

use crate::economy::player::Player;
use crate::ids::PrivComId;
use vstd::prelude::*;

verus! {

/// The seat that comes `steps` seats after `seat` at a table of `count`
/// seats, where seat 0 follows the last.
pub open spec fn seat_after(seat: int, steps: int, count: int) -> int {
    if seat + steps < count {
        seat + steps
    } else {
        seat + steps - count
    }
}

/// Returns the seat that comes `steps` seats after `seat` at a table of `count` seats
pub fn seat_following(seat: usize, steps: usize, count: usize) -> (r: usize)
    requires
        seat < count,
        steps <= count,
    ensures
        r == seat_after(seat as int, steps as int, count as int),
        r < count,
{
    if steps < count - seat {
        seat + steps
    } else {
        steps - (count - seat)
    }
}

/// The state of the auction: the lot, which is the cheapest private company
/// not yet sold; for each player, by seat, the bid on each private company,
/// by `PrivComId::index`; and the number of passes in a row.
#[verifier::ext_equal]
pub struct AuctionView {
    pub current: Option<PrivComId>,
    pub bids: Seq<Seq<Option<u32>>>,
    pub passes: nat,
}

impl AuctionView {
    /// Every player has a place for a bid on each private company, the
    /// companies that follow the lot have no bids yet, and the canal's face
    /// cost is one of 20, 15, 10, 5 and 0.
    pub open spec fn wf(self) -> bool {
        &&& forall|p: int| 0 <= p < self.bids.len() ==> (#[trigger] self.bids[p]).len() == 6
        &&& self.current matches Some(PrivComId::DAndR(c)) ==> c <= 20 && c % 5 == 0
        &&& self.current matches Some(cur) ==> forall|p: int, i: int|
            0 <= p < self.bids.len() && cur.index() < i < 6 ==> (#[trigger] self.bids[p][i]) is None
    }

    /// The auction as it starts: the canal is the lot, at 20, and nobody has bid or passed.
    pub open spec fn new(player_count: nat) -> AuctionView {
        AuctionView {
            current: Some(PrivComId::DAndR(20)),
            bids: Seq::new(player_count, |p: int| Seq::new(6, |i: int| None::<u32>)),
            passes: 0,
        }
    }

    /// The bid of `player` on `private`, if there is one.
    pub open spec fn bid(self, player: int, private: PrivComId) -> Option<u32> {
        self.bids[player][private.index()]
    }

    /// The highest bid on `private` among the first `n` players, or its face cost if that is higher.
    pub open spec fn max_bid_among(self, private: PrivComId, n: int) -> nat
        decreases n,
    {
        if n <= 0 {
            private.spec_cost()
        } else {
            let m = self.max_bid_among(private, n - 1);
            match self.bid(n - 1, private) {
                Some(b) => if b > m {
                    b as nat
                } else {
                    m
                },
                None => m,
            }
        }
    }

    /// The highest bid on `private`, or its face cost if no bid is higher.
    pub open spec fn max_bid(self, private: PrivComId) -> nat {
        self.max_bid_among(private, self.bids.len() as int)
    }

    /// Whether `private` is under active bidding: some bid exceeds its face cost.
    pub open spec fn in_auction(self, private: PrivComId) -> bool {
        self.max_bid(private) != private.spec_cost()
    }

    /// The amount of the bid at position `i` of a player's bids, 0 where there is none.
    pub open spec fn amount_at(self, player: int, i: int) -> nat {
        match self.bids[player][i] {
            Some(b) => b as nat,
            None => 0,
        }
    }

    /// What the bids of `player` add up to.
    pub open spec fn total_bids(self, player: int) -> nat {
        self.amount_at(player, 0) + self.amount_at(player, 1) + self.amount_at(player, 2)
            + self.amount_at(player, 3) + self.amount_at(player, 4) + self.amount_at(player, 5)
    }

    /// Whether a player with `capital` can afford to have `amount` on
    /// `private` beside their bids on other companies.
    pub open spec fn can_afford_bid(self, player: int, capital: nat, private: PrivComId, amount: nat) -> bool {
        amount + self.total_bids(player) - self.amount_at(player, private.index()) <= capital
    }

    /// Whether `player` is the only one with a bid on `private`.
    pub open spec fn is_only_bidder(self, player: int, private: PrivComId) -> bool {
        &&& 0 <= player < self.bids.len()
        &&& self.bid(player, private) is Some
        &&& forall|q: int| 0 <= q < self.bids.len() && q != player ==> (#[trigger] self.bid(q, private)) is None
    }

    /// The only bid on `private` with the player who made it, if exactly one player has a bid on it.
    pub open spec fn only_bid(self, private: PrivComId) -> Option<(usize, u32)> {
        if exists|p: int| self.is_only_bidder(p, private) {
            let p = choose|p: int| self.is_only_bidder(p, private);
            Some((p as usize, self.bid(p, private)->Some_0))
        } else {
            None
        }
    }

    /// Whether `player` is the first, by seat, of those whose bid on
    /// `private` is the highest, and that bid exceeds the face cost.
    pub open spec fn is_max_bidder(self, player: int, private: PrivComId) -> bool {
        &&& 0 <= player < self.bids.len()
        &&& self.max_bid(private) > private.spec_cost()
        &&& self.bid(player, private) matches Some(b) && b == self.max_bid(private)
        &&& forall|q: int|
            0 <= q < player ==> !(#[trigger] self.bid(q, private) matches Some(b) && b == self.max_bid(
                private,
            ))
    }

    /// The first player by seat with the highest bid on `private`, if any bid exceeds its face cost.
    pub open spec fn player_with_max_bid(self, private: PrivComId) -> Option<usize> {
        if exists|p: int| self.is_max_bidder(p, private) {
            Some((choose|p: int| self.is_max_bidder(p, private)) as usize)
        } else {
            None
        }
    }

    /// The first player with a bid on `private` among those who sit `i` or
    /// more seats after `after`, going round the table and stopping before
    /// `after` comes again.
    pub open spec fn next_bidder_from(self, after: int, private: PrivComId, i: int) -> Option<usize>
        decreases self.bids.len() - i,
    {
        if i >= self.bids.len() || i < 1 {
            None
        } else if self.bid(seat_after(after, i, self.bids.len() as int), private) is Some {
            Some(seat_after(after, i, self.bids.len() as int) as usize)
        } else {
            self.next_bidder_from(after, private, i + 1)
        }
    }

    /// The player whose turn it is next while the lot is under active
    /// bidding: the first with a bid on it after the highest bidder. None
    /// if the lot is not under active bidding or nobody else has a bid on it.
    pub open spec fn next_player_in_auction(self) -> Option<usize> {
        match self.current {
            Some(cur) => if !self.in_auction(cur) {
                None
            } else {
                match self.player_with_max_bid(cur) {
                    Some(top) => self.next_bidder_from(top as int, cur, 1),
                    None => None,
                }
            },
            None => None,
        }
    }

    /// Whether a player with `capital` may buy the lot: nobody has bid more
    /// than its face cost, and the player can afford that cost.
    pub open spec fn buy_allowed(self, player: int, capital: nat) -> bool {
        self.current matches Some(cur) && !self.in_auction(cur) && self.can_afford_bid(
            player,
            capital,
            cur,
            cur.spec_cost(),
        )
    }

    /// Whether `player` may pass: the lot costs something, and it is not
    /// under active bidding or the player has a bid on it.
    pub open spec fn pass_allowed(self, player: int) -> bool {
        self.current matches Some(cur) && cur.spec_cost() != 0 && (!self.in_auction(cur) || self.bid(
            player,
            cur,
        ) is Some)
    }

    /// Whether a player with `capital` may bid `amount` on `private`. The
    /// player must be able to afford the bid beside their bids on other
    /// companies, and it must be at most 5 below the highest bid. On the lot
    /// it must differ from the highest bid; on another company somebody must
    /// have bid above its face cost and the player must have no bid on it.
    pub open spec fn bid_allowed(self, player: int, capital: nat, private: PrivComId, amount: nat) -> bool {
        &&& self.current matches Some(cur)
        &&& self.can_afford_bid(player, capital, private, amount)
        &&& amount + 5 >= self.max_bid(private)
        &&& if private == cur {
            amount != self.max_bid(private)
        } else {
            self.in_auction(private) && self.bid(player, private) is None
        }
    }

    /// The auction after `player` has bid `amount` on `private`, whatever they had bid before.
    pub open spec fn insert_bid(self, player: int, private: PrivComId, amount: u32) -> AuctionView {
        AuctionView {
            bids: self.bids.update(player, self.bids[player].update(private.index(), Some(amount))),
            ..self
        }
    }

    /// The auction after `player` has withdrawn their bid on `private`.
    pub open spec fn remove_bid(self, player: int, private: PrivComId) -> AuctionView {
        AuctionView {
            bids: self.bids.update(player, self.bids[player].update(private.index(), None)),
            ..self
        }
    }

    /// Whether the bid of a player other than `player` on `private` is below the highest.
    pub open spec fn is_outbid(self, other: int, player: int, private: PrivComId) -> bool {
        other != player && (self.bid(other, private) matches Some(b) && b != self.max_bid(private))
    }

    /// The auction after every bid on `private` that is not the highest was
    /// set to 0, but for that of `player`. The bids stay in place: their
    /// makers must raise or pass.
    pub open spec fn reset_non_max_bids(self, player: int, private: PrivComId) -> AuctionView {
        AuctionView {
            bids: Seq::new(
                self.bids.len(),
                |p: int|
                    if self.is_outbid(p, player, private) {
                        self.bids[p].update(private.index(), Some(0u32))
                    } else {
                        self.bids[p]
                    },
            ),
            ..self
        }
    }

    /// The auction after the lot was sold: the next private company is the lot.
    pub open spec fn advance_current(self) -> AuctionView {
        AuctionView {
            current: match self.current {
                Some(cur) => cur.spec_successor(),
                None => None,
            },
            ..self
        }
    }

    /// The auction with the canal as the lot at 5 less than `old_cost`.
    pub open spec fn reduce_d_and_r_price(self, old_cost: nat) -> AuctionView
        recommends
            5 <= old_cost <= u32::MAX,
    {
        AuctionView { current: Some(PrivComId::DAndR((old_cost - 5) as u32)), ..self }
    }

    /// The auction after a bid of `amount` by `player` on `private`: the
    /// bid is recorded, the other players' bids on that company that are not
    /// the highest are set to 0, and the count of passes starts again.
    pub open spec fn place_bid(self, player: int, private: PrivComId, amount: u32) -> AuctionView {
        AuctionView {
            passes: 0,
            ..self.insert_bid(player, private, amount).reset_non_max_bids(player, private)
        }
    }

    /// The auction after the lot was bought at its face cost.
    pub open spec fn buy_current(self) -> AuctionView {
        AuctionView { passes: 0, ..self.advance_current() }
    }

    /// The auction after a pass on a lot that is not under active bidding.
    /// When all `player_count` players have passed in a row the count starts
    /// again, and if the lot is the canal its face cost goes down by 5.
    pub open spec fn pass_current(self, player_count: nat) -> AuctionView {
        if self.passes + 1 == player_count {
            match self.current {
                Some(PrivComId::DAndR(cost)) => AuctionView {
                    passes: 0,
                    ..self.reduce_d_and_r_price(cost as nat)
                },
                _ => AuctionView { passes: 0, ..self },
            }
        } else {
            AuctionView { passes: self.passes + 1, ..self }
        }
    }

    /// The auction after `player` has withdrawn their bid on `lot`, before anything is sold.
    pub open spec fn withdraw(self, player: int, lot: PrivComId) -> AuctionView {
        AuctionView { passes: 0, ..self.remove_bid(player, lot) }
    }

    /// What is sold when `player` passes on a lot under active bidding: the
    /// lot, to the only player who still has a bid on it, at that bid. None
    /// if several players still have one.
    pub open spec fn sale_on_pass(self, player: int) -> Option<(PrivComId, usize, u32)> {
        match self.current {
            Some(cur) => match self.withdraw(player, cur).only_bid(cur) {
                Some(sole) => Some((cur, sole.0, sole.1)),
                None => None,
            },
            None => None,
        }
    }

    /// The auction after `player` has passed on a lot under active bidding:
    /// their bid is withdrawn, and if that sells the lot, the next private
    /// company is the lot.
    pub open spec fn pass_auction(self, player: int) -> AuctionView {
        match self.current {
            Some(cur) => if self.sale_on_pass(player) is Some {
                self.withdraw(player, cur).advance_current()
            } else {
                self.withdraw(player, cur)
            },
            None => self,
        }
    }

    /// Whether `player` may pass on a lot that is not under active bidding.
    pub open spec fn pass_current_allowed(self, player: int) -> bool {
        self.pass_allowed(player) && (self.current matches Some(cur) && !self.in_auction(cur))
    }

    /// Whether `player` may pass on a lot that is under active bidding.
    pub open spec fn pass_auction_allowed(self, player: int) -> bool {
        self.pass_allowed(player) && (self.current matches Some(cur) && self.in_auction(cur))
    }

    /// The only bid on a company is the bid of a player of the game.
    pub proof fn lemma_only_bid(self, private: PrivComId)
        requires
            self.bids.len() <= usize::MAX,
        ensures
            self.only_bid(private) matches Some(sole) ==> self.is_only_bidder(sole.0 as int, private)
                && self.bid(sole.0 as int, private) == Some(sole.1) && sole.0 < self.bids.len(),
    {
        if exists|p: int| self.is_only_bidder(p, private) {
            let p = choose|p: int| self.is_only_bidder(p, private);
            assert(self.is_only_bidder(p, private));
        }
    }

    /// The player whose turn it is next in the auction is a player of the game.
    pub proof fn lemma_next_bidder(self, after: int, private: PrivComId, i: int)
        requires
            0 <= after < self.bids.len(),
            1 <= i,
        ensures
            self.next_bidder_from(after, private, i) matches Some(p) ==> p < self.bids.len(),
        decreases self.bids.len() - i,
    {
        if i < self.bids.len() {
            self.lemma_next_bidder(after, private, i + 1);
        }
    }

    /// A bid on a company other than the lot goes to a company that already has bids.
    pub proof fn lemma_bid_slot(self, player: int, capital: nat, private: PrivComId, amount: nat)
        requires
            self.wf(),
            self.bid_allowed(player, capital, private, amount),
        ensures
            private.index() <= self.current->Some_0.index(),
    {
        let cur = self.current->Some_0;
        if private != cur {
            self.lemma_max_bid(private, self.bids.len() as int);
            let p = choose|p: int|
                0 <= p < self.bids.len() && #[trigger] self.bid(p, private) == Some(
                    self.max_bid(private) as u32,
                );
            assert(self.bids[p][private.index()] is Some);
        }
    }

    /// Every step of the auction keeps its state well-formed.
    pub proof fn lemma_steps_wf(self, player: int, capital: nat, private: PrivComId, amount: u32)
        requires
            self.wf(),
            0 <= player < self.bids.len(),
        ensures
            self.bid_allowed(player, capital, private, amount as nat) ==> self.place_bid(
                player,
                private,
                amount,
            ).wf(),
            self.buy_current().wf(),
            self.pass_current_allowed(player) ==> forall|n: nat| #[trigger] self.pass_current(n).wf(),
            self.pass_auction(player).wf(),
    {
        if self.bid_allowed(player, capital, private, amount as nat) {
            self.lemma_bid_slot(player, capital, private, amount as nat);
            let after = self.place_bid(player, private, amount);
            assert forall|p: int| 0 <= p < after.bids.len() implies (#[trigger] after.bids[p]).len() == 6 by {
                assert(self.bids[p].len() == 6);
            }
            let cur = self.current->Some_0;
            assert forall|p: int, i: int| 0 <= p < after.bids.len() && cur.index() < i < 6 implies (
            #[trigger] after.bids[p][i]) is None by {
                assert(self.bids[p][i] is None);
                assert(self.bids[p].len() == 6);
            }
        }
        if self.current is Some {
            let cur = self.current->Some_0;
            let sold = self.buy_current();
            assert forall|p: int, i: int|
                0 <= p < sold.bids.len() && cur.index() + 1 < i < 6 implies (#[trigger] sold.bids[p][i]) is None by {
                assert(self.bids[p][i] is None);
            }
            let passed = self.pass_auction(player);
            assert forall|p: int| 0 <= p < passed.bids.len() implies (#[trigger] passed.bids[p]).len() == 6 by {
                assert(self.bids[p].len() == 6);
            }
            assert forall|p: int, i: int| 0 <= p < passed.bids.len() && cur.index() < i < 6 implies (
            #[trigger] passed.bids[p][i]) is None by {
                assert(self.bids[p][i] is None);
                assert(self.bids[p].len() == 6);
            }
        }
    }

    /// The highest bid is at least the face cost and every bid, and it is the
    /// face cost or somebody's bid.
    pub proof fn lemma_max_bid(self, private: PrivComId, n: int)
        requires
            0 <= n <= self.bids.len(),
        ensures
            self.max_bid_among(private, n) >= private.spec_cost(),
            forall|p: int| 0 <= p < n ==> (#[trigger] self.bid(p, private) matches Some(b) ==> b <= self.max_bid_among(private, n)),
            self.max_bid_among(private, n) == private.spec_cost() || exists|p: int|
                0 <= p < n && #[trigger] self.bid(p, private) == Some(self.max_bid_among(private, n) as u32),
            self.max_bid_among(private, n) <= u32::MAX,
        decreases n,
    {
        if n > 0 {
            self.lemma_max_bid(private, n - 1);
            let m = self.max_bid_among(private, n - 1);
            if m != private.spec_cost() {
                let p = choose|p: int| 0 <= p < n - 1 && #[trigger] self.bid(p, private) == Some(m as u32);
                assert(0 <= p < n && self.bid(p, private) == Some(m as u32));
            }
            assert(self.bid(n - 1, private) is Some ==> self.bid(n - 1, private) == Some(
                self.bid(n - 1, private)->Some_0,
            ));
        }
    }

}

/// Represents the auction for private companies
#[derive(Clone, Debug)]
pub struct PrivAuction {
    current: Option<PrivComId>,
    bids: Vec<[Option<u32>; 6]>,
    passes: usize,
}

impl View for PrivAuction {
    type V = AuctionView;

    closed spec fn view(&self) -> AuctionView {
        AuctionView {
            current: self.current,
            bids: Seq::new(self.bids@.len(), |p: int| self.bids@[p]@),
            passes: self.passes as nat,
        }
    }
}

impl PrivAuction {
    /// Returns the auction as it starts, for `player_count` players
    pub fn new(player_count: usize) -> (r: Self)
        ensures
            r@ == AuctionView::new(player_count as nat),
            r@.wf(),
    {
        let mut bids: Vec<[Option<u32>; 6]> = Vec::new();
        let mut i: usize = 0;
        while i < player_count
            invariant
                i <= player_count,
                bids@.len() == i,
                forall|p: int, k: int| 0 <= p < i && 0 <= k < 6 ==> (#[trigger] bids@[p]@[k]) is None,
            decreases player_count - i,
        {
            bids.push([None; 6]);
            i = i + 1;
        }
        let r = PrivAuction { current: Some(PrivComId::DAndR(20)), bids, passes: 0 };
        assert(r@ =~~= AuctionView::new(player_count as nat));
        r
    }

    /// Returns the current private company in this `PrivAuction`
    pub fn current(&self) -> (r: Option<PrivComId>)
        ensures
            r == self@.current,
    {
        self.current
    }

    /// Returns the bids of `player` in this `PrivAuction`, by `PrivComId::ordinal`
    pub fn bids(&self, player: &Player) -> (r: &[Option<u32>; 6])
        requires
            player@.id < self@.bids.len(),
        ensures
            r@ == self@.bids[player@.id as int],
    {
        &self.bids[player.id()]
    }

    /// Returns the number of passes in a row
    pub fn passes(&self) -> (r: usize)
        ensures
            r == self@.passes,
    {
        self.passes
    }

    /// Returns the highest bid on `private`, or its face cost if no bid is higher
    pub fn max_bid(&self, private: PrivComId) -> (r: u32)
        ensures
            r == self@.max_bid(private),
    {
        let mut max_bid: u32 = private.cost();
        let slot: usize = private.ordinal();
        let mut i: usize = 0;
        while i < self.bids.len()
            invariant
                i <= self.bids.len(),
                slot == private.index(),
                max_bid == self@.max_bid_among(private, i as int),
            decreases self.bids.len() - i,
        {
            match self.bids[i][slot] {
                Some(bid) => {
                    if bid > max_bid {
                        max_bid = bid;
                    }
                },
                None => {},
            }
            i = i + 1;
        }
        max_bid
    }

    /// Returns the only bid on `private` with the player who made it, if
    /// exactly one player has a bid on it
    pub fn only_bid(&self, private: PrivComId) -> (r: Option<(usize, u32)>)
        ensures
            r == self@.only_bid(private),
    {
        let slot: usize = private.ordinal();
        let mut only_bid: Option<(usize, u32)> = None;
        let mut i: usize = 0;
        while i < self.bids.len()
            invariant
                i <= self.bids.len(),
                slot == private.index(),
                only_bid is None ==> forall|q: int| 0 <= q < i ==> (#[trigger] self@.bid(q, private)) is None,
                only_bid matches Some(found) ==> found.0 < i && self@.bid(found.0 as int, private) == Some(
                    found.1,
                ) && forall|q: int|
                    0 <= q < i && q != found.0 ==> (#[trigger] self@.bid(q, private)) is None,
            decreases self.bids.len() - i,
        {
            match self.bids[i][slot] {
                Some(bid) => {
                    match only_bid {
                        None => {
                            only_bid = Some((i, bid));
                        },
                        Some(found) => {
                            assert forall|p: int| !self@.is_only_bidder(p, private) by {
                                if self@.is_only_bidder(p, private) {
                                    if p == i {
                                        assert(self@.bid(found.0 as int, private) is None);
                                    } else {
                                        assert(self@.bid(i as int, private) is None);
                                    }
                                }
                            }
                            return None;
                        },
                    }
                },
                None => {},
            }
            i = i + 1;
        }
        proof {
            match only_bid {
                Some(found) => {
                    assert(self@.is_only_bidder(found.0 as int, private));
                    let p = choose|p: int| self@.is_only_bidder(p, private);
                    if p != found.0 {
                        assert(self@.bid(found.0 as int, private) is None);
                    }
                },
                None => {
                    assert forall|p: int| !self@.is_only_bidder(p, private) by {
                        if self@.is_only_bidder(p, private) {
                            assert(self@.bid(p, private) is None);
                        }
                    }
                },
            }
        }
        only_bid
    }

    /// Returns what the bids of `player` add up to
    pub fn total_bids(&self, player: &Player) -> (r: u64)
        requires
            player@.id < self@.bids.len(),
        ensures
            r == self@.total_bids(player@.id as int),
    {
        let row = &self.bids[player.id()];
        let ghost who = player@.id as int;
        let mut total: u64 = 0;
        let mut i: usize = 0;
        while i < 6
            invariant
                i <= 6,
                row@ == self@.bids[who],
                total <= i * 0xffff_ffff,
                total == (if i > 0 { self@.amount_at(who, 0) } else { 0 })
                    + (if i > 1 { self@.amount_at(who, 1) } else { 0 })
                    + (if i > 2 { self@.amount_at(who, 2) } else { 0 })
                    + (if i > 3 { self@.amount_at(who, 3) } else { 0 })
                    + (if i > 4 { self@.amount_at(who, 4) } else { 0 })
                    + (if i > 5 { self@.amount_at(who, 5) } else { 0 }),
            decreases 6 - i,
        {
            match row[i] {
                Some(bid) => {
                    total = total + bid as u64;
                },
                None => {},
            }
            i = i + 1;
        }
        total
    }

    /// Returns whether `player` can afford to have `amount` on `private`
    /// beside their bids on other companies
    pub fn can_afford_bid(&self, player: &Player, private: PrivComId, amount: u32) -> (r: bool)
        requires
            player@.id < self@.bids.len(),
        ensures
            r == self@.can_afford_bid(player@.id as int, player@.capital, private, amount as nat),
    {
        let previous_total_amount: u64 = self.total_bids(player);
        let previous: u64 = match self.bids[player.id()][private.ordinal()] {
            Some(bid) => bid as u64,
            None => 0,
        };
        assert(previous == self@.amount_at(player@.id as int, private.index()));
        assert(previous <= previous_total_amount);
        amount as u64 + previous_total_amount - previous <= player.capital() as u64
    }

    /// Returns whether `private` is under active bidding
    pub fn lot_in_auction(&self, private: PrivComId) -> (r: bool)
        ensures
            r == self@.in_auction(private),
    {
        private.cost() != self.max_bid(private)
    }

    /// Returns whether the current private company is under active bidding
    pub fn in_auction(&self) -> (r: bool)
        ensures
            r == (self@.current matches Some(cur) && self@.in_auction(cur)),
    {
        match self.current {
            Some(current) => self.lot_in_auction(current),
            None => false,
        }
    }

    /// Returns whether every private company is sold
    pub fn is_done(&self) -> (r: bool)
        ensures
            r == (self@.current is None),
    {
        self.current.is_none()
    }

    /// Returns the current private company if `player` may buy it
    pub fn current_if_buy_allowed(&self, player: &Player) -> (r: Option<PrivComId>)
        requires
            player@.id < self@.bids.len(),
        ensures
            r == (if self@.buy_allowed(player@.id as int, player@.capital) {
                self@.current
            } else {
                None
            }),
    {
        match self.current {
            Some(current) => {
                if !self.lot_in_auction(current) && self.can_afford_bid(player, current, current.cost()) {
                    Some(current)
                } else {
                    None
                }
            },
            None => None,
        }
    }

    /// Returns whether `player` may buy the current private company
    pub fn buy_allowed(&self, player: &Player) -> (r: bool)
        requires
            player@.id < self@.bids.len(),
        ensures
            r == self@.buy_allowed(player@.id as int, player@.capital),
    {
        self.current_if_buy_allowed(player).is_some()
    }

    /// Returns the current private company if `player` may pass
    pub fn current_if_pass_allowed(&self, player: &Player) -> (r: Option<PrivComId>)
        requires
            player@.id < self@.bids.len(),
        ensures
            r == (if self@.pass_allowed(player@.id as int) {
                self@.current
            } else {
                None
            }),
    {
        match self.current {
            Some(current) => {
                if current.cost() != 0 && (!self.lot_in_auction(current)
                    || self.bids[player.id()][current.ordinal()].is_some()) {
                    Some(current)
                } else {
                    None
                }
            },
            None => None,
        }
    }

    /// Returns whether `player` may pass
    pub fn pass_allowed(&self, player: &Player) -> (r: bool)
        requires
            player@.id < self@.bids.len(),
        ensures
            r == self@.pass_allowed(player@.id as int),
    {
        self.current_if_pass_allowed(player).is_some()
    }

    /// Returns whether `player` may bid `amount` on `private`
    pub fn bid_allowed(&self, player: &Player, private: PrivComId, amount: u32) -> (r: bool)
        requires
            player@.id < self@.bids.len(),
        ensures
            r == self@.bid_allowed(player@.id as int, player@.capital, private, amount as nat),
    {
        match self.current {
            Some(current) => {
                let max_bid: u32 = self.max_bid(private);
                self.can_afford_bid(player, private, amount) && amount as u64 + 5 >= max_bid as u64 && (
                if private == current {
                    amount != max_bid
                } else {
                    private.cost() != max_bid && self.bids[player.id()][private.ordinal()].is_none()
                })
            },
            None => false,
        }
    }
    /// Returns the first player by seat with the highest bid on `private`,
    /// if any bid exceeds its face cost
    pub fn player_with_max_bid(&self, private: PrivComId) -> (r: Option<usize>)
        ensures
            r == self@.player_with_max_bid(private),
    {
        let slot: usize = private.ordinal();
        let mut player: Option<usize> = None;
        let mut max_bid: u32 = private.cost();
        let mut i: usize = 0;
        while i < self.bids.len()
            invariant
                i <= self.bids.len(),
                slot == private.index(),
                max_bid == self@.max_bid_among(private, i as int),
                player is None ==> max_bid == private.spec_cost(),
                player matches Some(p) ==> p < i && max_bid > private.spec_cost() && self@.bid(
                    p as int,
                    private,
                ) == Some(max_bid) && forall|q: int|
                    0 <= q < p ==> (#[trigger] self@.bid(q, private) matches Some(b) ==> b < max_bid),
            decreases self.bids.len() - i,
        {
            proof {
                self@.lemma_max_bid(private, i as int);
            }
            match self.bids[i][slot] {
                Some(bid) => {
                    if bid > max_bid {
                        player = Some(i);
                        max_bid = bid;
                    }
                },
                None => {},
            }
            i = i + 1;
        }
        proof {
            match player {
                Some(p) => {
                    assert(self@.is_max_bidder(p as int, private));
                    let c = choose|c: int| self@.is_max_bidder(c, private);
                    if c < p {
                        assert(self@.bid(c, private) matches Some(b) ==> b < max_bid);
                    }
                },
                None => {},
            }
        }
        player
    }

    /// Returns the player whose turn it is next while the current private
    /// company is under active bidding: the first with a bid on it after the
    /// highest bidder
    pub fn next_player_in_auction(&self) -> (r: Option<usize>)
        ensures
            r == self@.next_player_in_auction(),
            r matches Some(p) ==> p < self@.bids.len(),
    {
        match self.current {
            Some(current) => {
                if !self.lot_in_auction(current) {
                    None
                } else {
                    match self.player_with_max_bid(current) {
                        Some(player) => {
                            let count: usize = self.bids.len();
                            let slot: usize = current.ordinal();
                            assert(self@.is_max_bidder(player as int, current));
                            let mut i: usize = 1;
                            while i < count
                                invariant
                                    1 <= i,
                                    player < count,
                                    count == self.bids.len(),
                                    slot == current.index(),
                                    self@.next_player_in_auction() == self@.next_bidder_from(
                                        player as int,
                                        current,
                                        1,
                                    ),
                                    self@.next_bidder_from(player as int, current, 1)
                                        == self@.next_bidder_from(player as int, current, i as int),
                                decreases count - i,
                            {
                                let j: usize = seat_following(player, i, count);
                                assert(self@.bid(j as int, current) == self.bids@[j as int]@[slot as int]);
                                if self.bids[j][slot].is_some() {
                                    return Some(j);
                                }
                                i = i + 1;
                            }
                            None
                        },
                        None => None,
                    }
                }
            },
            None => None,
        }
    }

    /// Records a bid of `amount` by `player` on `private`, in place of what they had bid on it
    pub fn insert_bid(&mut self, player: &Player, private: PrivComId, amount: u32)
        requires
            player@.id < old(self)@.bids.len(),
        ensures
            final(self)@ == old(self)@.insert_bid(player@.id as int, private, amount),
    {
        let who: usize = player.id();
        let mut row = self.bids[who];
        row[private.ordinal()] = Some(amount);
        self.bids.set(who, row);
        assert(self@ =~~= old(self)@.insert_bid(player@.id as int, private, amount));
    }

    /// Withdraws the bid of `player` on `private`
    pub fn remove_bid(&mut self, player: &Player, private: PrivComId)
        requires
            player@.id < old(self)@.bids.len(),
        ensures
            final(self)@ == old(self)@.remove_bid(player@.id as int, private),
    {
        let who: usize = player.id();
        let mut row = self.bids[who];
        row[private.ordinal()] = None;
        self.bids.set(who, row);
        assert(self@ =~~= old(self)@.remove_bid(player@.id as int, private));
    }

    /// Sets every bid on `private` that is not the highest to 0, but for that of `player`
    pub fn reset_non_max_bids(&mut self, player: &Player, private: PrivComId)
        ensures
            final(self)@ == old(self)@.reset_non_max_bids(player@.id as int, private),
    {
        let max_bid: u32 = self.max_bid(private);
        let slot: usize = private.ordinal();
        let who: usize = player.id();
        let count: usize = self.bids.len();
        let mut i: usize = 0;
        while i < count
            invariant
                i <= count,
                count == self.bids.len(),
                count == old(self)@.bids.len(),
                slot == private.index(),
                who == player@.id,
                max_bid == old(self)@.max_bid(private),
                self.current == old(self).current,
                self.passes == old(self).passes,
                forall|p: int| i <= p < count ==> #[trigger] self.bids@[p] == old(self).bids@[p],
                forall|p: int|
                    0 <= p < i ==> (#[trigger] self.bids@[p])@ == old(self)@.reset_non_max_bids(
                        who as int,
                        private,
                    ).bids[p],
            decreases count - i,
        {
            assert(old(self)@.bid(i as int, private) == self.bids@[i as int]@[slot as int]);
            let mut row = self.bids[i];
            if i != who {
                match row[slot] {
                    Some(bid) => {
                        if bid != max_bid {
                            row[slot] = Some(0);
                            self.bids.set(i, row);
                        }
                    },
                    None => {},
                }
            }
            i = i + 1;
        }
        assert(self@ =~~= old(self)@.reset_non_max_bids(player@.id as int, private));
    }

    /// Makes the next private company the current one
    pub fn advance_current(&mut self)
        ensures
            final(self)@ == old(self)@.advance_current(),
    {
        match self.current {
            Some(current) => {
                self.current = current.successor();
            },
            None => {},
        }
    }

    /// Offers the canal at 5 less than `old_cost`
    pub fn reduce_d_and_r_price(&mut self, old_cost: u32)
        requires
            old_cost >= 5,
        ensures
            final(self)@ == old(self)@.reduce_d_and_r_price(old_cost as nat),
    {
        self.current = Some(PrivComId::DAndR(old_cost - 5));
    }

    /// Places a bid of `amount` by `player` on `private`, if that is allowed
    pub fn place_bid(&mut self, player: &Player, private: PrivComId, amount: u32) -> (placed: bool)
        requires
            old(self)@.wf(),
            player@.id < old(self)@.bids.len(),
        ensures
            placed == old(self)@.bid_allowed(player@.id as int, player@.capital, private, amount as nat),
            final(self)@ == (if placed {
                old(self)@.place_bid(player@.id as int, private, amount)
            } else {
                old(self)@
            }),
            final(self)@.wf(),
    {
        proof {
            self@.lemma_steps_wf(player@.id as int, player@.capital, private, amount);
        }
        if self.bid_allowed(player, private, amount) {
            self.insert_bid(player, private, amount);
            self.reset_non_max_bids(player, private);
            self.passes = 0;
            assert(self@ =~~= old(self)@.place_bid(player@.id as int, private, amount));
            true
        } else {
            false
        }
    }

    /// Sells the current private company to `player` at its face cost, if
    /// that is allowed, and returns it
    pub fn buy_current(&mut self, player: &Player) -> (r: Option<PrivComId>)
        requires
            old(self)@.wf(),
            player@.id < old(self)@.bids.len(),
        ensures
            r == (if old(self)@.buy_allowed(player@.id as int, player@.capital) {
                old(self)@.current
            } else {
                None
            }),
            final(self)@ == (if r is Some {
                old(self)@.buy_current()
            } else {
                old(self)@
            }),
            final(self)@.wf(),
    {
        proof {
            self@.lemma_steps_wf(player@.id as int, player@.capital, PrivComId::CV, 0);
        }
        match self.current_if_buy_allowed(player) {
            Some(current) => {
                self.passes = 0;
                self.advance_current();
                assert(self@ =~~= old(self)@.buy_current());
                Some(current)
            },
            None => None,
        }
    }

    /// Counts a pass of `player` on a current private company that is not
    /// under active bidding, if that is allowed, and returns whether all
    /// `player_count` players have now passed in a row
    pub fn pass_current(&mut self, player: &Player, player_count: usize) -> (everyone: bool)
        requires
            old(self)@.wf(),
            player@.id < old(self)@.bids.len(),
            old(self)@.passes < usize::MAX,
        ensures
            everyone == (old(self)@.pass_current_allowed(player@.id as int) && old(self)@.passes + 1
                == player_count),
            final(self)@ == (if old(self)@.pass_current_allowed(player@.id as int) {
                old(self)@.pass_current(player_count as nat)
            } else {
                old(self)@
            }),
            final(self)@.wf(),
    {
        proof {
            self@.lemma_steps_wf(player@.id as int, player@.capital, PrivComId::CV, 0);
        }
        match self.current_if_pass_allowed(player) {
            Some(current) => {
                if self.lot_in_auction(current) {
                    return false;
                }
                self.passes = self.passes + 1;
                if self.passes == player_count {
                    self.passes = 0;
                    match current {
                        PrivComId::DAndR(cost) => {
                            self.reduce_d_and_r_price(cost);
                        },
                        _ => {},
                    }
                    true
                } else {
                    false
                }
            },
            None => false,
        }
    }

    /// Withdraws the bid of `player` on a current private company that is
    /// under active bidding, if passing is allowed. If that leaves one bid,
    /// the company is sold: returns it, the player who bought it and the price
    pub fn pass_auction(&mut self, player: &Player) -> (sold: Option<(PrivComId, usize, u32)>)
        requires
            old(self)@.wf(),
            player@.id < old(self)@.bids.len(),
        ensures
            sold == (if old(self)@.pass_auction_allowed(player@.id as int) {
                old(self)@.sale_on_pass(player@.id as int)
            } else {
                None
            }),
            final(self)@ == (if old(self)@.pass_auction_allowed(player@.id as int) {
                old(self)@.pass_auction(player@.id as int)
            } else {
                old(self)@
            }),
            final(self)@.wf(),
    {
        proof {
            self@.lemma_steps_wf(player@.id as int, player@.capital, PrivComId::CV, 0);
        }
        match self.current_if_pass_allowed(player) {
            Some(current) => {
                if !self.lot_in_auction(current) {
                    return None;
                }
                self.passes = 0;
                self.remove_bid(player, current);
                assert(self@ =~~= old(self)@.withdraw(player@.id as int, current));
                match self.only_bid(current) {
                    Some(sole) => {
                        self.advance_current();
                        Some((current, sole.0, sole.1))
                    },
                    None => None,
                }
            },
            None => None,
        }
    }
}

} // verus!
