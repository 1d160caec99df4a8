//! The track lays that are possible for a public company.

use vstd::prelude::*;

verus! {

/// Represents the possible track lays of a public company
#[derive(Clone, Debug)]
pub struct TrackLayMap {
    track_lays: Vec<((usize, usize), Vec<(i32, u32)>)>,
}

/// The track lays recorded for the hex `key` among the entries from position `from` on.
pub open spec fn lays_from(
    entries: Seq<((usize, usize), Seq<(i32, u32)>)>,
    key: (usize, usize),
    from: int,
) -> Seq<(i32, u32)>
    decreases entries.len() - from,
{
    if from < 0 || from >= entries.len() {
        Seq::empty()
    } else if entries[from].0 == key {
        entries[from].1
    } else {
        lays_from(entries, key, from + 1)
    }
}

impl View for TrackLayMap {
    type V = Seq<((usize, usize), Seq<(i32, u32)>)>;

    closed spec fn view(&self) -> Seq<((usize, usize), Seq<(i32, u32)>)> {
        Seq::new(self.track_lays@.len(), |i: int| (self.track_lays@[i].0, self.track_lays@[i].1@))
    }
}

impl TrackLayMap {
    /// The track lays that are possible on the hex at `key`, each a tile id
    /// and a rotation, in the order in which they were recorded.
    pub open spec fn lays_at(&self, key: (usize, usize)) -> Seq<(i32, u32)> {
        lays_from(self@, key, 0)
    }

    /// Returns a map without track lays
    pub fn new() -> (r: Self)
        ensures
            forall|key: (usize, usize)| #[trigger] r.lays_at(key) == Seq::<(i32, u32)>::empty(),
    {
        TrackLayMap { track_lays: Vec::new() }
    }

    /// Returns the place of the entry for the hex at `key`, if there is one
    fn find(&self, key: (usize, usize)) -> (r: Option<usize>)
        ensures
            r matches Some(i) ==> i < self.track_lays@.len() && self.track_lays@[i as int].0 == key
                && self.lays_at(key) == lays_from(self@, key, i as int) && forall|j: int|
                0 <= j < i ==> (#[trigger] self.track_lays@[j]).0 != key,
            r is None ==> forall|j: int|
                0 <= j < self.track_lays@.len() ==> (#[trigger] self.track_lays@[j]).0 != key,
            r is None ==> self.lays_at(key) == Seq::<(i32, u32)>::empty(),
    {
        let mut i: usize = 0;
        while i < self.track_lays.len()
            invariant
                i <= self.track_lays.len(),
                self.lays_at(key) == lays_from(self@, key, i as int),
                forall|j: int| 0 <= j < i ==> (#[trigger] self.track_lays@[j]).0 != key,
            decreases self.track_lays.len() - i,
        {
            let entry = &self.track_lays[i];
            assert(self@[i as int] == (self.track_lays@[i as int].0, self.track_lays@[i as int].1@));
            if entry.0.0 == key.0 && entry.0.1 == key.1 {
                return Some(i);
            }
            i = i + 1;
        }
        None
    }

    /// What is recorded for a hex depends only on the entries up to the first for it.
    proof fn lemma_lays_from(&self, other: &TrackLayMap, key: (usize, usize), from: int)
        requires
            0 <= from,
            self.track_lays@.len() <= other.track_lays@.len(),
            forall|j: int| from <= j < self.track_lays@.len() ==> (#[trigger] self.track_lays@[j]).0 == other.track_lays@[j].0,
            forall|j: int|
                from <= j < self.track_lays@.len() && self.track_lays@[j].0 == key ==> (
                #[trigger] self.track_lays@[j]).1@ == other.track_lays@[j].1@,
            forall|j: int|
                self.track_lays@.len() <= j < other.track_lays@.len() ==> (
                #[trigger] other.track_lays@[j]).0 != key,
        ensures
            lays_from(self@, key, from) == lays_from(other@, key, from),
        decreases other.track_lays@.len() - from,
    {
        if from < other.track_lays@.len() {
            assert(other@[from] == (other.track_lays@[from].0, other.track_lays@[from].1@));
            if from < self.track_lays@.len() {
                assert(self@[from] == (self.track_lays@[from].0, self.track_lays@[from].1@));
                if self.track_lays@[from].0 != key {
                    self.lemma_lays_from(other, key, from + 1);
                }
            } else {
                assert(other.track_lays@[from].0 != key);
                self.lemma_lays_from(other, key, from + 1);
            }
        }
    }

    /// Records the track lay `value` as possible on the hex at `key`
    pub fn insert(&mut self, key: (usize, usize), value: (i32, u32))
        ensures
            final(self).lays_at(key) == old(self).lays_at(key).push(value),
            forall|other: (usize, usize)|
                other != key ==> #[trigger] final(self).lays_at(other) == old(self).lays_at(other),
    {
        match self.find(key) {
            Some(i) => {
                self.track_lays[i].1.push(value);
                proof {
                    assert forall|other: (usize, usize)| other != key implies #[trigger] self.lays_at(other)
                        == old(self).lays_at(other) by {
                        old(self).lemma_lays_from(self, other, 0);
                    }
                    self.lemma_prefix(old(self), key, 0, i as int);
                }
            },
            None => {
                let mut lays: Vec<(i32, u32)> = Vec::new();
                lays.push(value);
                self.track_lays.push((key, lays));
                proof {
                    assert forall|other: (usize, usize)| other != key implies #[trigger] self.lays_at(other)
                        == old(self).lays_at(other) by {
                        old(self).lemma_lays_from(self, other, 0);
                    }
                    self.lemma_prefix(old(self), key, 0, old(self).track_lays@.len() as int);
                    assert(self.track_lays@[old(self).track_lays@.len() as int].1@ =~= Seq::<(i32, u32)>::empty().push(value));
                }
            },
        }
    }

    /// Entries for other hexes before the first entry for a hex do not matter.
    proof fn lemma_prefix(&self, other: &TrackLayMap, key: (usize, usize), from: int, at: int)
        requires
            0 <= from <= at < self.track_lays@.len(),
            at <= other.track_lays@.len(),
            forall|j: int| from <= j < at ==> (#[trigger] self.track_lays@[j]).0 != key,
            forall|j: int| from <= j < at ==> (#[trigger] other.track_lays@[j]).0 != key,
            self.track_lays@[at].0 == key,
        ensures
            lays_from(self@, key, from) == self.track_lays@[at].1@,
            lays_from(other@, key, from) == lays_from(other@, key, at),
        decreases at - from,
    {
        assert(self@[from] == (self.track_lays@[from].0, self.track_lays@[from].1@));
        if from < at {
            assert(other@[from] == (other.track_lays@[from].0, other.track_lays@[from].1@));
            assert(self.track_lays@[from].0 != key);
            assert(other.track_lays@[from].0 != key);
            self.lemma_prefix(other, key, from + 1, at);
        }
    }

    /// Returns the track lays that are possible on the hex at `key`
    pub fn get(&self, key: (usize, usize)) -> (r: Vec<(i32, u32)>)
        ensures
            r@ == self.lays_at(key),
    {
        match self.find(key) {
            Some(i) => {
                let lays = &self.track_lays[i].1;
                let mut r: Vec<(i32, u32)> = Vec::new();
                let mut k: usize = 0;
                while k < lays.len()
                    invariant
                        k <= lays.len(),
                        r@ == lays@.take(k as int),
                    decreases lays.len() - k,
                {
                    r.push(lays[k]);
                    assert(lays@.take(k as int).push(lays@[k as int]) =~= lays@.take(k as int + 1));
                    k = k + 1;
                }
                assert(lays@.take(lays@.len() as int) =~= lays@);
                r
            },
            None => Vec::new(),
        }
    }
}

} // verus!
