//! The par track: the par values on offer and the par price of each company.

use crate::ids::PubComId;
use vstd::prelude::*;

verus! {

/// The place on the par track of a par value, for the values that have one.
pub open spec fn par_position(par: nat) -> Option<nat> {
    if par == 70 {
        Some(0nat)
    } else if par == 80 {
        Some(1nat)
    } else if par == 95 {
        Some(2nat)
    } else {
        None
    }
}

/// The par track: the par values in the order of their places, and for each
/// public company, by `PubComId::index`, the place of its token if it has one.
#[verifier::ext_equal]
pub struct ParTrackView {
    pub values: Seq<u32>,
    pub tokens: Seq<Option<nat>>,
}

impl ParTrackView {
    /// Every listed par value stands at its own place of the track.
    pub open spec fn values_placed(values: Seq<u32>) -> bool {
        forall|i: int| 0 <= i < values.len() ==> par_position(#[trigger] values[i] as nat) == Some(i as nat)
    }

    /// Every listed value stands at its place, and every token on a listed value.
    pub open spec fn wf(self) -> bool {
        &&& ParTrackView::values_placed(self.values)
        &&& self.tokens.len() == 8
        &&& forall|i: int|
            0 <= i < 8 ==> (#[trigger] self.tokens[i] matches Some(p) ==> p < self.values.len())
    }

    /// No company has a token on the track.
    pub open spec fn has_no_token(self) -> bool {
        forall|i: int| 0 <= i < 8 ==> (#[trigger] self.tokens[i]) is None
    }

    /// A track with the given values and no token.
    pub open spec fn new(values: Seq<u32>) -> ParTrackView {
        ParTrackView { values, tokens: Seq::new(8, |i: int| None::<nat>) }
    }

    /// Whether `par` is one of the par values on offer.
    pub open spec fn offers(self, par: nat) -> bool {
        exists|i: int| 0 <= i < self.values.len() && #[trigger] self.values[i] == par
    }

    /// The par price of `pub_com`, if one was set.
    pub open spec fn value(self, pub_com: PubComId) -> Option<u32> {
        match self.tokens[pub_com.index()] {
            Some(p) => Some(self.values[p as int]),
            None => None,
        }
    }

    /// The track after the token of `pub_com` was put on `par`.
    pub open spec fn add_token(self, pub_com: PubComId, par: nat) -> ParTrackView {
        ParTrackView { tokens: self.tokens.update(pub_com.index(), par_position(par)), ..self }
    }

    /// On a well-formed track, a par value on offer has a place, and a
    /// company whose token was put on it has that par price.
    pub proof fn lemma_add_token(self, pub_com: PubComId, par: nat)
        requires
            self.wf(),
            self.offers(par),
        ensures
            par_position(par) is Some,
            self.add_token(pub_com, par).wf(),
            self.add_token(pub_com, par).value(pub_com) == Some(par as u32),
            forall|c: PubComId| c != pub_com ==> #[trigger] self.add_token(pub_com, par).value(c) == self.value(c),
    {
        let i = choose|i: int| 0 <= i < self.values.len() && #[trigger] self.values[i] == par;
        assert(par_position(self.values[i] as nat) == Some(i as nat));
        assert forall|c: PubComId| c != pub_com implies #[trigger] self.add_token(pub_com, par).value(c)
            == self.value(c) by {
            assert(c.index() != pub_com.index());
        }
    }
}

/// Represents the par track for a game
#[derive(Clone, Debug)]
pub struct ParTrack {
    values: Vec<u32>,
    tokens: [Option<usize>; 8],
}

impl View for ParTrack {
    type V = ParTrackView;

    closed spec fn view(&self) -> ParTrackView {
        ParTrackView {
            values: self.values@,
            tokens: Seq::new(
                8,
                |i: int|
                    match self.tokens@[i] {
                        Some(p) => Some(p as nat),
                        None => None,
                    },
            ),
        }
    }
}

impl ParTrack {
    /// Returns the place on the par track of a par value, if it has one
    pub fn par_to_position(par: u32) -> (r: Option<usize>)
        ensures
            r is Some <==> par_position(par as nat) is Some,
            r matches Some(p) ==> par_position(par as nat) == Some(p as nat),
    {
        if par == 70 {
            Some(0)
        } else if par == 80 {
            Some(1)
        } else if par == 95 {
            Some(2)
        } else {
            None
        }
    }

    /// Returns a par track with the given par values and no token, if every
    /// value stands at its place: 70 first, then 80, then 95
    pub fn new(values: Vec<u32>) -> (r: Option<Self>)
        ensures
            r is Some <==> ParTrackView::values_placed(values@),
            r matches Some(track) ==> track@ == ParTrackView::new(values@) && track@.wf(),
    {
        let mut i: usize = 0;
        while i < values.len()
            invariant
                i <= values.len(),
                forall|j: int| 0 <= j < i ==> par_position(#[trigger] values@[j] as nat) == Some(j as nat),
            decreases values.len() - i,
        {
            match ParTrack::par_to_position(values[i]) {
                Some(p) => {
                    if p != i {
                        assert(par_position(values@[i as int] as nat) != Some(i as nat));
                        return None;
                    }
                },
                None => {
                    assert(par_position(values@[i as int] as nat) != Some(i as nat));
                    return None;
                },
            }
            i = i + 1;
        }
        let track = ParTrack { values, tokens: [None; 8] };
        assert(track@ =~= ParTrackView::new(values@));
        Some(track)
    }

    /// Puts the token of `pub_com` on `par`
    pub fn add_token(&mut self, pub_com: PubComId, par: u32)
        requires
            old(self)@.wf(),
            old(self)@.offers(par as nat),
        ensures
            final(self)@ == old(self)@.add_token(pub_com, par as nat),
            final(self)@.wf(),
    {
        proof {
            self@.lemma_add_token(pub_com, par as nat);
        }
        let p = ParTrack::par_to_position(par);
        self.tokens[pub_com.ordinal()] = p;
        assert(self@ =~= old(self)@.add_token(pub_com, par as nat));
    }

    /// Returns the par value of `pub_com` on this `ParTrack`
    pub fn value(&self, pub_com: PubComId) -> (r: Option<u32>)
        requires
            self@.wf(),
        ensures
            r == self@.value(pub_com),
    {
        match self.tokens[pub_com.ordinal()] {
            Some(p) => {
                assert(self@.tokens[pub_com.index()] == Some(p as nat));
                Some(self.values[p])
            },
            None => None,
        }
    }

    /// Returns the par values of this `ParTrack`
    pub fn values(&self) -> (r: &[u32])
        ensures
            r@ == self@.values,
    {
        self.values.as_slice()
    }

    /// Returns whether `par` is one of the par values of this `ParTrack`
    pub fn offers(&self, par: u32) -> (b: bool)
        ensures
            b == self@.offers(par as nat),
    {
        let mut i: usize = 0;
        while i < self.values.len()
            invariant
                i <= self.values.len(),
                forall|j: int| 0 <= j < i ==> self.values@[j] != par,
            decreases self.values.len() - i,
        {
            if self.values[i] == par {
                assert(self@.values[i as int] == par);
                return true;
            }
            i = i + 1;
        }
        false
    }
}

} // verus!
