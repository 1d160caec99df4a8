//! The trains of a game and how many of each there are.

use crate::ids::TrainId;
use vstd::prelude::*;

verus! {

/// Represents the trains and their respective counts available in a game
#[derive(Clone, Debug)]
pub struct TrainSet {
    trains: Vec<(TrainId, i32)>,
}

impl View for TrainSet {
    type V = Set<(TrainId, i32)>;

    closed spec fn view(&self) -> Set<(TrainId, i32)> {
        self.trains@.to_set()
    }
}

impl TrainSet {
    /// Returns a set without trains
    pub fn new() -> (r: Self)
        ensures
            r@ == Set::<(TrainId, i32)>::empty(),
    {
        let r = TrainSet { trains: Vec::new() };
        assert(r@ =~= Set::<(TrainId, i32)>::empty());
        r
    }

    /// Returns whether the set has `count` trains of the kind `train`
    pub fn contains(&self, train: TrainId, count: i32) -> (b: bool)
        ensures
            b == self@.contains((train, count)),
    {
        let mut i: usize = 0;
        while i < self.trains.len()
            invariant
                i <= self.trains.len(),
                forall|j: int| 0 <= j < i ==> self.trains@[j] != (train, count),
            decreases self.trains.len() - i,
        {
            let entry = self.trains[i];
            if entry.0 == train && entry.1 == count {
                assert(self.trains@[i as int] == (train, count));
                return true;
            }
            i = i + 1;
        }
        false
    }

    /// Adds `count` trains of the kind `train`
    pub fn insert(&mut self, train: TrainId, count: i32)
        ensures
            final(self)@ == old(self)@.insert((train, count)),
    {
        if !self.contains(train, count) {
            proof {
                self.trains@.lemma_push_to_set_commute((train, count));
            }
            self.trains.push((train, count));
        }
        assert(self@ =~= old(self)@.insert((train, count)));
    }
}

} // verus!
