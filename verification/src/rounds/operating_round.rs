//! The state of an operating round.

use crate::ids::PubComId;
use vstd::prelude::*;

verus! {

/// The state of an operating round: how many operating rounds follow it
/// before the next stock round, and which public companies have yet to
/// operate, by `PubComId::index`.
#[verifier::ext_equal]
pub struct OperatingRoundView {
    pub operating_rounds_left: u32,
    pub pub_coms_to_operate: Seq<bool>,
}

impl OperatingRoundView {
    /// Whether `pub_com` has yet to operate.
    pub open spec fn operates(self, pub_com: PubComId) -> bool {
        self.pub_coms_to_operate[pub_com.index()]
    }

    /// The public companies that have yet to operate, in their fixed order.
    pub open spec fn to_operate(self) -> Seq<PubComId> {
        PubComId::all().filter(|c: PubComId| self.operates(c))
    }
}

/// Represents an operating round
#[derive(Clone, Copy, Debug)]
pub struct OperatingRound {
    operating_rounds_left: u32,
    pub_coms_to_operate: [bool; 8],
}

impl View for OperatingRound {
    type V = OperatingRoundView;

    closed spec fn view(&self) -> OperatingRoundView {
        OperatingRoundView {
            operating_rounds_left: self.operating_rounds_left,
            pub_coms_to_operate: self.pub_coms_to_operate@,
        }
    }
}

impl OperatingRound {
    /// Returns an operating round in which the companies marked in
    /// `pub_coms_to_operate`, by `PubComId::ordinal`, have yet to operate
    pub fn new(operating_rounds_left: u32, pub_coms_to_operate: [bool; 8]) -> (r: Self)
        ensures
            r@ == (OperatingRoundView {
                operating_rounds_left,
                pub_coms_to_operate: pub_coms_to_operate@,
            }),
    {
        OperatingRound { operating_rounds_left, pub_coms_to_operate }
    }

    /// Returns how many operating rounds follow this one before the next stock round
    pub fn operating_rounds_left(&self) -> (r: u32)
        ensures
            r == self@.operating_rounds_left,
    {
        self.operating_rounds_left
    }

    /// Returns whether `pub_com` has yet to operate in this `OperatingRound`
    pub fn operates(&self, pub_com: PubComId) -> (b: bool)
        ensures
            b == self@.operates(pub_com),
    {
        self.pub_coms_to_operate[pub_com.ordinal()]
    }

    /// Returns the public companies yet to operate in this `OperatingRound`
    pub fn pub_coms_to_operate(&self) -> (v: Vec<PubComId>)
        ensures
            v@ == self@.to_operate(),
    {
        let ghost pred = |c: PubComId| self@.operates(c);
        let mut v: Vec<PubComId> = Vec::new();
        let mut i: usize = 0;
        assert(PubComId::all().take(0) =~= Seq::<PubComId>::empty());
        proof {
            PubComId::lemma_all();
            reveal(Seq::filter);
        }
        while i < 8
            invariant
                i <= 8,
                pred == (|c: PubComId| self@.operates(c)),
                v@ == PubComId::all().take(i as int).filter(pred),
            decreases 8 - i,
        {
            let c = PubComId::from_ordinal(i);
            proof {
                PubComId::lemma_all();
                PubComId::all().take(i as int).lemma_filter_push(c, pred);
                assert(PubComId::all().take(i as int).push(c) =~= PubComId::all().take(i as int + 1));
            }
            if self.pub_coms_to_operate[i] {
                v.push(c);
            }
            i = i + 1;
        }
        assert(PubComId::all().take(8) =~= PubComId::all());
        v
    }
}

} // verus!
