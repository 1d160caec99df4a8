//! A public company that has floated.

use crate::ids::{PubComId, TrainId};
use vstd::prelude::*;

verus! {

/// What a public company has: its treasury, its trains, by kind, and
/// whether it has operated in the current operating round.
#[verifier::ext_equal]
pub struct PubComView {
    pub id: PubComId,
    pub capital: nat,
    pub trains: Seq<bool>,
    pub operated: bool,
}

impl PubComView {
    /// A company that has just floated: it has `capital`, no train, and has not operated.
    pub open spec fn new(id: PubComId, capital: nat) -> PubComView {
        PubComView { id, capital, trains: Seq::new(6, |i: int| false), operated: false }
    }
}

/// Represents a public company
#[derive(Clone, Copy, Debug)]
pub struct PubCom {
    id: PubComId,
    capital: u32,
    trains: [bool; 6],
    operated: bool,
}

impl View for PubCom {
    type V = PubComView;

    closed spec fn view(&self) -> PubComView {
        PubComView {
            id: self.id,
            capital: self.capital as nat,
            trains: self.trains@,
            operated: self.operated,
        }
    }
}

/// The place of a kind of train in a company's list of trains.
pub open spec fn train_index(train: TrainId) -> int {
    match train {
        TrainId::Range2 => 0,
        TrainId::Range3 => 1,
        TrainId::Range4 => 2,
        TrainId::Range5 => 3,
        TrainId::Range6 => 4,
        TrainId::Diesel => 5,
    }
}

impl PubCom {
    /// Returns a public company that has just floated with `capital`
    pub fn new(id: PubComId, capital: u32) -> (r: Self)
        ensures
            r@ == PubComView::new(id, capital as nat),
    {
        let r = PubCom { id, capital, trains: [false; 6], operated: false };
        assert(r@ =~= PubComView::new(id, capital as nat));
        r
    }

    /// Returns the id of this `PubCom`
    pub fn id(&self) -> (r: PubComId)
        ensures
            r == self@.id,
    {
        self.id
    }

    /// Returns the treasury of this `PubCom`
    pub fn capital(&self) -> (r: u32)
        ensures
            r == self@.capital,
    {
        self.capital
    }

    /// Returns whether this `PubCom` has a train of the given kind
    pub fn has_train(&self, train: TrainId) -> (b: bool)
        ensures
            b == self@.trains[train_index(train)],
    {
        let i: usize = match train {
            TrainId::Range2 => 0,
            TrainId::Range3 => 1,
            TrainId::Range4 => 2,
            TrainId::Range5 => 3,
            TrainId::Range6 => 4,
            TrainId::Diesel => 5,
        };
        self.trains[i]
    }

    /// Returns whether this `PubCom` has operated in the current operating round
    pub fn operated(&self) -> (b: bool)
        ensures
            b == self@.operated,
    {
        self.operated
    }
}

} // verus!
