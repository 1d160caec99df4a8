//! A tile: the rails on a hex, the tile's color, and the tiles that can replace it.

use crate::geography::rail::{Rail, RailView};
use crate::ids::{ColorId, PubComId};
use vstd::prelude::*;

verus! {

/// A tile: its rails, its color, and the ids of the tiles that it can be upgraded to.
#[verifier::ext_equal]
pub struct TileView {
    pub rails: Seq<RailView>,
    pub color: ColorId,
    pub upgrades: Seq<i32>,
}

impl TileView {
    /// The first rail, from position `from` on, that reaches the edge `edge`.
    pub open spec fn rail_reaching_from(self, edge: u32, from: int) -> Option<int>
        decreases self.rails.len() - from,
    {
        if from < 0 || from >= self.rails.len() {
            None
        } else if self.rails[from].edges.contains(edge) {
            Some(from)
        } else {
            self.rail_reaching_from(edge, from + 1)
        }
    }

    /// The first rail that reaches the edge `edge`.
    pub open spec fn rail_reaching(self, edge: u32) -> Option<int> {
        self.rail_reaching_from(edge, 0)
    }

    /// Whether `pub_com` can place a station on the rail that comes from
    /// `from_edge`: there is such a rail, and its stop can take the station.
    pub open spec fn can_place_station(self, pub_com: PubComId, from_edge: u32) -> bool {
        self.rail_reaching(from_edge) matches Some(i) && self.rails[i].can_place_station(pub_com)
    }

    /// The tile with a station of `pub_com` on the rail that comes from `from_edge`.
    pub open spec fn place_station(self, pub_com: PubComId, from_edge: u32) -> TileView {
        match self.rail_reaching(from_edge) {
            Some(i) => TileView { rails: self.rails.update(i, self.rails[i].place_station(pub_com)), ..self },
            None => self,
        }
    }

    /// A station leaves the rails at the edges where they were.
    pub proof fn lemma_rail_reaching(self, other: TileView, edge: u32, from: int)
        requires
            self.rails.len() == other.rails.len(),
            forall|i: int| 0 <= i < self.rails.len() ==> (#[trigger] self.rails[i]).edges == other.rails[i].edges,
        ensures
            self.rail_reaching_from(edge, from) == other.rail_reaching_from(edge, from),
        decreases self.rails.len() - from,
    {
        if 0 <= from < self.rails.len() {
            assert(self.rails[from].edges == other.rails[from].edges);
            self.lemma_rail_reaching(other, edge, from + 1);
        }
    }

    /// A company that has placed a station from an edge cannot place another from it.
    pub proof fn lemma_station_placed(self, pub_com: PubComId, from_edge: u32)
        requires
            self.can_place_station(pub_com, from_edge),
        ensures
            !self.place_station(pub_com, from_edge).can_place_station(pub_com, from_edge),
    {
        let after = self.place_station(pub_com, from_edge);
        let i = self.rail_reaching(from_edge)->Some_0;
        self.lemma_rail_at(from_edge, 0);
        assert forall|k: int| 0 <= k < self.rails.len() implies (#[trigger] self.rails[k]).edges
            == after.rails[k].edges by {}
        self.lemma_rail_reaching(after, from_edge, 0);
        self.rails[i].stop->Some_0.lemma_station_placed(pub_com);
    }

    /// The first rail that reaches an edge is a rail of the tile.
    pub proof fn lemma_rail_at(self, edge: u32, from: int)
        requires
            0 <= from,
        ensures
            self.rail_reaching_from(edge, from) matches Some(i) ==> from <= i < self.rails.len(),
        decreases self.rails.len() - from,
    {
        if from < self.rails.len() {
            self.lemma_rail_at(edge, from + 1);
        }
    }

    /// The first rail with a stop, from position `from` on.
    pub open spec fn rail_with_stop_from(self, from: int) -> Option<int>
        decreases self.rails.len() - from,
    {
        if from < 0 || from >= self.rails.len() {
            None
        } else if self.rails[from].stop is Some {
            Some(from)
        } else {
            self.rail_with_stop_from(from + 1)
        }
    }

    /// The company that has its home at the stop of the first rail with a
    /// stop, with the first edge of that rail. None if the stop is nobody's
    /// home or the rail has no edge.
    pub open spec fn home(self) -> Option<(PubComId, u32)> {
        match self.rail_with_stop_from(0) {
            Some(i) => match self.rails[i].stop->Some_0.home() {
                Some(home) => if self.rails[i].edges.len() > 0 {
                    Some((home, self.rails[i].edges[0]))
                } else {
                    None
                },
                None => None,
            },
            None => None,
        }
    }
}

/// Represents a tile
#[derive(Clone, Debug)]
pub struct Tile {
    rails: Vec<Rail>,
    color: ColorId,
    upgrades: Vec<i32>,
}

impl View for Tile {
    type V = TileView;

    closed spec fn view(&self) -> TileView {
        TileView {
            rails: Seq::new(self.rails@.len(), |i: int| self.rails@[i]@),
            color: self.color,
            upgrades: self.upgrades@,
        }
    }
}

impl Tile {
    /// Returns a tile
    pub fn new(rails: Vec<Rail>, color: ColorId, upgrades: Vec<i32>) -> (r: Self)
        ensures
            r@ == (TileView {
                rails: Seq::new(rails@.len(), |i: int| rails@[i]@),
                color,
                upgrades: upgrades@,
            }),
    {
        Tile { rails, color, upgrades }
    }

    /// Returns the rails of this `Tile`
    pub fn rails(&self) -> (r: &Vec<Rail>)
        ensures
            r@.len() == self@.rails.len(),
            forall|i: int| 0 <= i < r@.len() ==> (#[trigger] r@[i])@ == self@.rails[i],
    {
        &self.rails
    }

    /// Returns the first rail of this `Tile` that reaches the edge `edge`
    pub fn rail_reaching(&self, edge: u32) -> (r: Option<usize>)
        ensures
            r is Some <==> self@.rail_reaching(edge) is Some,
            r matches Some(i) ==> self@.rail_reaching(edge) == Some(i as int) && i < self@.rails.len(),
    {
        let mut i: usize = 0;
        while i < self.rails.len()
            invariant
                i <= self.rails.len(),
                self@.rail_reaching(edge) == self@.rail_reaching_from(edge, i as int),
            decreases self.rails.len() - i,
        {
            if self.rails[i].reaches(edge) {
                return Some(i);
            }
            i = i + 1;
        }
        None
    }

    /// Returns whether `pub_com` can place a station on the rail of this
    /// `Tile` that comes from `from_edge`
    pub fn can_place_station(&self, pub_com: PubComId, from_edge: u32) -> (b: bool)
        ensures
            b == self@.can_place_station(pub_com, from_edge),
    {
        match self.rail_reaching(from_edge) {
            Some(i) => self.rails[i].can_place_station(pub_com),
            None => false,
        }
    }

    /// Places a station of `pub_com` on the rail of this `Tile` that comes from `from_edge`
    pub fn place_station(&mut self, pub_com: PubComId, from_edge: u32)
        requires
            old(self)@.can_place_station(pub_com, from_edge),
        ensures
            final(self)@ == old(self)@.place_station(pub_com, from_edge),
    {
        match self.rail_reaching(from_edge) {
            Some(i) => {
                self.rails[i].place_station(pub_com);
                assert(self@ =~~= old(self)@.place_station(pub_com, from_edge));
            },
            None => {},
        }
    }

    /// Returns the public company that has its home on this `Tile` and
    /// the first edge of the rail with its home, if any
    pub fn home(&self) -> (r: Option<(PubComId, u32)>)
        ensures
            r == self@.home(),
    {
        let mut i: usize = 0;
        while i < self.rails.len()
            invariant
                i <= self.rails.len(),
                self@.rail_with_stop_from(0) == self@.rail_with_stop_from(i as int),
            decreases self.rails.len() - i,
        {
            let rail = &self.rails[i];
            match rail.stop() {
                Some(stop) => {
                    return match stop.home() {
                        Some(home) => if rail.edges().len() > 0 {
                            Some((home, rail.edges()[0]))
                        } else {
                            None
                        },
                        None => None,
                    };
                },
                None => {},
            }
            i = i + 1;
        }
        None
    }

    /// Returns the color of this `Tile`
    pub fn color(&self) -> (r: ColorId)
        ensures
            r == self@.color,
    {
        self.color
    }

    /// Returns the ids of the tiles that this `Tile` can be upgraded to
    pub fn upgrades(&self) -> (r: &[i32])
        ensures
            r@ == self@.upgrades,
    {
        self.upgrades.as_slice()
    }
}

} // verus!
