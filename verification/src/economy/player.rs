//! A player's part of the ledger: capital, shares and private companies.

use crate::economy::shares::{Shares, SharesView};
use crate::ids::PrivComId;
use vstd::prelude::*;

verus! {

/// What a player has: capital, shares of public companies, and private
/// companies, the latter listed by `PrivComId::index`.
#[verifier::ext_equal]
pub struct PlayerView {
    pub id: nat,
    pub capital: nat,
    pub shares: SharesView,
    pub priv_coms: Seq<bool>,
}

impl PlayerView {
    /// The holdings list every public and every private company.
    pub open spec fn wf(self) -> bool {
        &&& self.shares.wf()
        &&& self.priv_coms.len() == 6
    }

    /// A player who has `capital` and nothing else.
    pub open spec fn new(id: nat, capital: nat) -> PlayerView {
        PlayerView {
            id,
            capital,
            shares: SharesView::empty(),
            priv_coms: Seq::new(6, |i: int| false),
        }
    }

    /// Whether the player owns `private`.
    pub open spec fn owns(self, private: PrivComId) -> bool {
        self.priv_coms[private.index()]
    }

    /// What the private company at position `i` pays this player when revenue is collected.
    pub open spec fn income_at(self, i: int) -> nat {
        if self.priv_coms[i] {
            PrivComId::all()[i].spec_revenue()
        } else {
            0
        }
    }

    /// What the player's private companies pay together when revenue is collected.
    pub open spec fn income(self) -> nat {
        self.income_at(0) + self.income_at(1) + self.income_at(2) + self.income_at(3)
            + self.income_at(4) + self.income_at(5)
    }

    /// The player after paying `price` for `private`.
    pub open spec fn buy_priv(self, private: PrivComId, price: nat) -> PlayerView
        recommends
            price <= self.capital,
    {
        PlayerView {
            capital: (self.capital - price) as nat,
            priv_coms: self.priv_coms.update(private.index(), true),
            ..self
        }
    }

    /// The player after collecting the revenue of their private companies.
    pub open spec fn operate_priv_coms(self) -> PlayerView {
        PlayerView { capital: self.capital + self.income(), ..self }
    }

    /// The player with `capital` more.
    pub open spec fn add_capital(self, capital: nat) -> PlayerView {
        PlayerView { capital: self.capital + capital, ..self }
    }

    /// The player with `capital` less.
    pub open spec fn remove_capital(self, capital: nat) -> PlayerView
        recommends
            capital <= self.capital,
    {
        PlayerView { capital: (self.capital - capital) as nat, ..self }
    }

    /// The player with other capital and shares.
    pub open spec fn with_ledger(self, capital: nat, shares: SharesView) -> PlayerView {
        PlayerView { capital, shares, ..self }
    }

    /// The player with other shares.
    pub open spec fn with_shares(self, shares: SharesView) -> PlayerView {
        PlayerView { shares, ..self }
    }
}

/// Represents a player in a game
#[derive(Clone, Debug)]
pub struct Player {
    id: usize,
    capital: u32,
    shares: Shares,
    priv_coms: [bool; 6],
}

impl View for Player {
    type V = PlayerView;

    closed spec fn view(&self) -> PlayerView {
        PlayerView {
            id: self.id as nat,
            capital: self.capital as nat,
            shares: self.shares@,
            priv_coms: self.priv_coms@,
        }
    }
}

impl Player {
    /// Returns this player: what is known of any `Player` holds of them
    pub fn checked(&self) -> (r: &Self)
        ensures
            r == self,
            self@.wf(),
            self@.id <= usize::MAX,
            self@.capital <= u32::MAX,
            self@.income() <= 70,
    {
        self.shares.checked();
        self
    }

    /// Returns a player with `capital` and neither shares nor private companies
    pub fn new(id: usize, capital: u32) -> (r: Self)
        ensures
            r@ == PlayerView::new(id as nat, capital as nat),
            r@.wf(),
    {
        let r = Player { id, capital, shares: Shares::empty_shares(), priv_coms: [false; 6] };
        assert(r@ =~= PlayerView::new(id as nat, capital as nat));
        r
    }

    /// Pays `price` and takes `private`
    pub fn buy_priv(&mut self, private: PrivComId, price: u32)
        requires
            price <= old(self)@.capital,
        ensures
            final(self)@ == old(self)@.buy_priv(private, price as nat),
    {
        self.capital = self.capital - price;
        self.priv_coms[private.ordinal()] = true;
        assert(self@ =~= old(self)@.buy_priv(private, price as nat));
    }

    /// Returns what the player's private companies pay together
    pub fn income(&self) -> (r: u32)
        ensures
            r == self@.income(),
    {
        let all = PrivComId::values();
        let mut total: u32 = 0;
        let mut i: usize = 0;
        while i < 6
            invariant
                i <= 6,
                all@ == PrivComId::all(),
                total <= 30 * i,
                total == (if i > 0 { self@.income_at(0) } else { 0 })
                    + (if i > 1 { self@.income_at(1) } else { 0 })
                    + (if i > 2 { self@.income_at(2) } else { 0 })
                    + (if i > 3 { self@.income_at(3) } else { 0 })
                    + (if i > 4 { self@.income_at(4) } else { 0 })
                    + (if i > 5 { self@.income_at(5) } else { 0 }),
            decreases 6 - i,
        {
            if self.priv_coms[i] {
                total = total + all[i].revenue();
            }
            i = i + 1;
        }
        total
    }

    /// Collects the revenue of the player's private companies
    pub fn operate_priv_coms(&mut self)
        requires
            old(self)@.capital + old(self)@.income() <= u32::MAX,
        ensures
            final(self)@ == old(self)@.operate_priv_coms(),
    {
        let income: u32 = self.income();
        self.capital = self.capital + income;
    }

    /// Returns the shares of this `Player`, to change them
    pub fn shares_mut(&mut self) -> (r: &mut Shares)
        ensures
            r@ == old(self)@.shares,
            final(self)@ == old(self)@.with_shares(final(r)@),
    {
        &mut self.shares
    }

    /// Gives the player the capital and the shares of a record of the ledger
    pub fn restore(&mut self, capital: u32, shares: Shares)
        ensures
            final(self)@ == old(self)@.with_ledger(capital as nat, shares@),
    {
        self.capital = capital;
        self.shares = shares;
    }

    /// Adds `capital`
    pub fn add_capital(&mut self, capital: u32)
        requires
            old(self)@.capital + capital <= u32::MAX,
        ensures
            final(self)@ == old(self)@.add_capital(capital as nat),
    {
        self.capital = self.capital + capital;
    }

    /// Removes `capital`
    pub fn remove_capital(&mut self, capital: u32)
        requires
            capital <= old(self)@.capital,
        ensures
            final(self)@ == old(self)@.remove_capital(capital as nat),
    {
        self.capital = self.capital - capital;
    }

    /// Returns the id of this `Player`
    pub fn id(&self) -> (r: usize)
        ensures
            r == self@.id,
    {
        self.id
    }

    /// Returns the capital of this `Player`
    pub fn capital(&self) -> (r: u32)
        ensures
            r == self@.capital,
    {
        self.capital
    }

    /// Returns the shares of this `Player`
    pub fn shares(&self) -> (r: &Shares)
        ensures
            r@ == self@.shares,
            r@.wf(),
    {
        self.shares.checked()
    }

    /// Returns whether this `Player` owns `private`
    pub fn owns(&self, private: PrivComId) -> (b: bool)
        ensures
            b == self@.owns(private),
    {
        self.priv_coms[private.ordinal()]
    }
}

} // verus!
