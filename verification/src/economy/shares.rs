//! Share certificates of the public companies, as one holder has them.

use crate::ids::PubComId;
use vstd::prelude::*;

verus! {

/// What one holder has of each public company: a number of shares and,
/// possibly, the president's certificate. Both are listed by `PubComId::index`.
#[verifier::ext_equal]
pub struct SharesView {
    pub counts: Seq<nat>,
    pub presidencies: Seq<bool>,
}

impl SharesView {
    /// Both lists have an entry for each public company, and no company has more than 8 shares.
    pub open spec fn wf(self) -> bool {
        &&& self.counts.len() == 8
        &&& self.presidencies.len() == 8
        &&& forall|i: int| 0 <= i < 8 ==> #[trigger] self.counts[i] <= 8
    }

    /// The number of shares of `pub_com`.
    pub open spec fn count(self, pub_com: PubComId) -> nat {
        self.counts[pub_com.index()]
    }

    /// Whether the president's certificate of `pub_com` is held.
    pub open spec fn president(self, pub_com: PubComId) -> bool {
        self.presidencies[pub_com.index()]
    }

    /// The initial offering: eight shares and the president's certificate of every company.
    pub open spec fn ipo() -> SharesView {
        SharesView { counts: Seq::new(8, |i: int| 8nat), presidencies: Seq::new(8, |i: int| true) }
    }

    /// No share and no president's certificate of any company.
    pub open spec fn empty() -> SharesView {
        SharesView { counts: Seq::new(8, |i: int| 0nat), presidencies: Seq::new(8, |i: int| false) }
    }

    /// These holdings with `count` more shares of `pub_com`.
    pub open spec fn add_shares(self, pub_com: PubComId, count: nat) -> SharesView {
        SharesView {
            counts: self.counts.update(pub_com.index(), self.count(pub_com) + count),
            ..self
        }
    }

    /// These holdings with `count` fewer shares of `pub_com`.
    pub open spec fn remove_shares(self, pub_com: PubComId, count: nat) -> SharesView
        recommends
            count <= self.count(pub_com),
    {
        SharesView {
            counts: self.counts.update(pub_com.index(), (self.count(pub_com) - count) as nat),
            ..self
        }
    }

    /// These holdings with the president's certificate of `pub_com`.
    pub open spec fn add_president(self, pub_com: PubComId) -> SharesView {
        SharesView { presidencies: self.presidencies.update(pub_com.index(), true), ..self }
    }

    /// These holdings without the president's certificate of `pub_com`.
    pub open spec fn remove_president(self, pub_com: PubComId) -> SharesView {
        SharesView { presidencies: self.presidencies.update(pub_com.index(), false), ..self }
    }
}

/// Represents any combination of shares
#[derive(Clone, Copy, Debug)]
pub struct Shares {
    shares: [u32; 8],
    president_shares: [bool; 8],
}

impl View for Shares {
    type V = SharesView;

    closed spec fn view(&self) -> SharesView {
        SharesView {
            counts: Seq::new(8, |i: int| self.shares@[i] as nat),
            presidencies: Seq::new(8, |i: int| self.president_shares@[i]),
        }
    }
}

impl Shares {
    #[verifier::type_invariant]
    spec fn inv(&self) -> bool {
        forall|i: int| 0 <= i < 8 ==> #[trigger] self.shares@[i] <= 8
    }

    /// Returns these shares: what is known of any `Shares` holds of them
    pub fn checked(&self) -> (r: &Self)
        ensures
            r == self,
            self@.wf(),
    {
        proof {
            use_type_invariant(self);
        }
        self
    }

    /// Returns the shares of the initial offering
    pub fn ipo_shares() -> (r: Self)
        ensures
            r@ == SharesView::ipo(),
            r@.wf(),
    {
        let r = Shares { shares: [8u32; 8], president_shares: [true; 8] };
        assert(r@ =~= SharesView::ipo());
        r
    }

    /// Returns holdings without any share
    pub fn empty_shares() -> (r: Self)
        ensures
            r@ == SharesView::empty(),
            r@.wf(),
    {
        let r = Shares { shares: [0u32; 8], president_shares: [false; 8] };
        assert(r@ =~= SharesView::empty());
        r
    }

    /// Returns the holdings with the given numbers of shares and
    /// president's certificates, by `PubComId::ordinal`, if none of the
    /// numbers exceeds 8
    pub fn from_parts(counts: [u32; 8], presidencies: [bool; 8]) -> (r: Option<Self>)
        ensures
            r is Some <==> forall|i: int| 0 <= i < 8 ==> #[trigger] counts@[i] <= 8,
            r matches Some(shares) ==> shares@.wf() && shares@.presidencies == presidencies@ && forall|i: int|
                0 <= i < 8 ==> #[trigger] shares@.counts[i] == counts@[i],
    {
        let mut i: usize = 0;
        while i < 8
            invariant
                i <= 8,
                forall|k: int| 0 <= k < i ==> #[trigger] counts@[k] <= 8,
            decreases 8 - i,
        {
            if counts[i] > 8 {
                return None;
            }
            i = i + 1;
        }
        let shares = Shares { shares: counts, president_shares: presidencies };
        assert(shares@.presidencies =~= presidencies@);
        Some(shares)
    }

    /// Adds `count` shares of `pub_com`
    pub fn add_shares(&mut self, pub_com: PubComId, count: u32)
        requires
            old(self)@.count(pub_com) + count <= 8,
        ensures
            final(self)@ == old(self)@.add_shares(pub_com, count as nat),
            final(self)@.wf(),
    {
        proof {
            use_type_invariant(&*self);
        }
        let i: usize = pub_com.ordinal();
        self.shares[i] = self.shares[i] + count;
        assert(self@ =~= old(self)@.add_shares(pub_com, count as nat));
    }

    /// Removes `count` shares of `pub_com`
    pub fn remove_shares(&mut self, pub_com: PubComId, count: u32)
        requires
            count <= old(self)@.count(pub_com),
        ensures
            final(self)@ == old(self)@.remove_shares(pub_com, count as nat),
            final(self)@.wf(),
    {
        proof {
            use_type_invariant(&*self);
        }
        let i: usize = pub_com.ordinal();
        self.shares[i] = self.shares[i] - count;
        assert(self@ =~= old(self)@.remove_shares(pub_com, count as nat));
    }

    /// Adds the president's certificate of `pub_com`
    pub fn add_president(&mut self, pub_com: PubComId)
        ensures
            final(self)@ == old(self)@.add_president(pub_com),
            final(self)@.wf(),
    {
        proof {
            use_type_invariant(&*self);
        }
        let i: usize = pub_com.ordinal();
        self.president_shares[i] = true;
        assert(self@ =~= old(self)@.add_president(pub_com));
    }

    /// Removes the president's certificate of `pub_com`
    pub fn remove_president(&mut self, pub_com: PubComId)
        ensures
            final(self)@ == old(self)@.remove_president(pub_com),
            final(self)@.wf(),
    {
        proof {
            use_type_invariant(&*self);
        }
        let i: usize = pub_com.ordinal();
        self.president_shares[i] = false;
        assert(self@ =~= old(self)@.remove_president(pub_com));
    }

    /// Returns the number of shares of `pub_com` in this `Shares`.
    pub fn count(&self, pub_com: PubComId) -> (n: u32)
        ensures
            n == self@.count(pub_com),
            n <= 8,
    {
        proof {
            use_type_invariant(self);
        }
        self.shares[pub_com.ordinal()]
    }

    /// Returns whether the president share of `pub_com` is in this `Shares`.
    pub fn president(&self, pub_com: PubComId) -> (b: bool)
        ensures
            b == self@.president(pub_com),
    {
        self.president_shares[pub_com.ordinal()]
    }
}

} // verus!
