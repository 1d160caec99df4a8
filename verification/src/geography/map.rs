//! The map: its hexes and the homes of the public companies.

use crate::geography::hex::{Hex, HexView};
use crate::geography::track_lay_map::TrackLayMap;
use crate::ids::PubComId;
use vstd::prelude::*;

verus! {

/// The map: `width` columns of `height` hexes, each present or not; for
/// each public company, by `PubComId::index`, the column and row of its home
/// and the edge from which its station there is reached; and for each
/// public company the places of its stations.
#[verifier::ext_equal]
pub struct MapView {
    pub width: usize,
    pub height: usize,
    pub hexes: Seq<Seq<Option<HexView>>>,
    pub homes: Seq<Option<(usize, usize, Option<u32>)>>,
    pub stations: Seq<Seq<(usize, usize, Option<u32>)>>,
}

impl MapView {
    /// The map has `width` columns of `height` places, and a home and a
    /// list of stations for each company.
    pub open spec fn wf(self) -> bool {
        &&& self.hexes.len() == self.width
        &&& forall|x: int| 0 <= x < self.width ==> (#[trigger] self.hexes[x]).len() == self.height
        &&& self.homes.len() == 8
        &&& self.stations.len() == 8
    }

    /// A map without hexes, homes or stations.
    pub open spec fn new(width: usize, height: usize) -> MapView {
        MapView {
            width,
            height,
            hexes: Seq::new(width as nat, |x: int| Seq::new(height as nat, |y: int| None::<HexView>)),
            homes: Seq::new(8, |i: int| None::<(usize, usize, Option<u32>)>),
            stations: Seq::new(8, |i: int| Seq::<(usize, usize, Option<u32>)>::empty()),
        }
    }

    /// Whether a hex can be put at column `x`, row `y`: the place is on
    /// the map, and empty.
    pub open spec fn can_set_hex(self, x: usize, y: usize) -> bool {
        x < self.width && y < self.height && self.hexes[x as int][y as int] is None
    }

    /// The map with `hex` at column `x`, row `y`.
    pub open spec fn set_hex(self, x: usize, y: usize, hex: HexView) -> MapView {
        MapView { hexes: self.hexes.update(x as int, self.hexes[x as int].update(y as int, Some(hex))), ..self }
    }

    /// The map with the home of `pub_com` at column `x`, row `y`.
    pub open spec fn set_home(self, pub_com: PubComId, x: usize, y: usize, edge: Option<u32>) -> MapView {
        MapView { homes: self.homes.update(pub_com.index(), Some((x, y, edge))), ..self }
    }

    /// The edge from which a home station is reached: the one that is recorded, else 0.
    pub open spec fn home_edge(edge: Option<u32>) -> u32 {
        match edge {
            Some(edge) => edge,
            None => 0,
        }
    }

    /// Whether the home station of `pub_com` can be placed: its home is a
    /// hex of the map that can take its station.
    pub open spec fn can_place_home_station(self, pub_com: PubComId) -> bool {
        self.homes[pub_com.index()] matches Some(home) && home.0 < self.width && home.1 < self.height && (
        self.hexes[home.0 as int][home.1 as int] matches Some(hex) && hex.can_place_station(
            pub_com,
            MapView::home_edge(home.2),
        ))
    }

    /// The map with the home station of `pub_com` placed, if it can be
    /// placed; else the map as it is. Placing it a second time changes nothing.
    pub open spec fn place_home_station(self, pub_com: PubComId) -> MapView {
        if self.can_place_home_station(pub_com) {
            let home = self.homes[pub_com.index()]->Some_0;
            let hex = self.hexes[home.0 as int][home.1 as int]->Some_0;
            self.set_hex(home.0, home.1, hex.place_station(pub_com, MapView::home_edge(home.2)))
        } else {
            self
        }
    }
}

impl MapView {
    /// Placing a home station a second time changes nothing.
    pub proof fn lemma_home_station_placed_once(self, pub_com: PubComId)
        requires
            self.wf(),
        ensures
            self.place_home_station(pub_com).place_home_station(pub_com) == self.place_home_station(
                pub_com,
            ),
    {
        if self.can_place_home_station(pub_com) {
            let home = self.homes[pub_com.index()]->Some_0;
            let hex = self.hexes[home.0 as int][home.1 as int]->Some_0;
            assert(self.hexes[home.0 as int].len() == self.height);
            hex.lemma_station_placed(pub_com, MapView::home_edge(home.2));
        }
    }

    /// Placing a home station leaves a map well-formed.
    pub proof fn lemma_place_home_station(self, pub_com: PubComId)
        requires
            self.wf(),
        ensures
            self.place_home_station(pub_com).wf(),
    {
        let after = self.place_home_station(pub_com);
        assert forall|x: int| 0 <= x < after.width implies (#[trigger] after.hexes[x]).len() == after.height by {
            assert(self.hexes[x].len() == self.height);
        }
    }
}

/// Represents the map that a game is played on
#[derive(Clone, Debug)]
pub struct GameMap {
    width: usize,
    height: usize,
    hexes: Vec<Vec<Option<Hex>>>,
    homes: [Option<(usize, usize, Option<u32>)>; 8],
    stations: Vec<Vec<(usize, usize, Option<u32>)>>,
}

impl View for GameMap {
    type V = MapView;

    closed spec fn view(&self) -> MapView {
        MapView {
            width: self.width,
            height: self.height,
            hexes: Seq::new(
                self.hexes@.len(),
                |x: int|
                    Seq::new(
                        self.hexes@[x]@.len(),
                        |y: int|
                            match self.hexes@[x]@[y] {
                                Some(hex) => Some(hex@),
                                None => None,
                            },
                    ),
            ),
            homes: self.homes@,
            stations: Seq::new(self.stations@.len(), |i: int| self.stations@[i]@),
        }
    }
}

impl GameMap {
    /// Returns a map of `width` columns and `height` rows without hexes, homes or stations
    pub fn new(width: usize, height: usize) -> (r: Self)
        ensures
            r@ == MapView::new(width, height),
            r@.wf(),
    {
        let mut hexes: Vec<Vec<Option<Hex>>> = Vec::new();
        let mut x: usize = 0;
        while x < width
            invariant
                x <= width,
                hexes@.len() == x,
                forall|i: int| 0 <= i < x ==> (#[trigger] hexes@[i])@.len() == height,
                forall|i: int, j: int| 0 <= i < x && 0 <= j < height ==> (#[trigger] hexes@[i]@[j]) is None,
            decreases width - x,
        {
            let mut column: Vec<Option<Hex>> = Vec::new();
            let mut y: usize = 0;
            while y < height
                invariant
                    y <= height,
                    column@.len() == y,
                    forall|j: int| 0 <= j < y ==> (#[trigger] column@[j]) is None,
                decreases height - y,
            {
                column.push(None);
                y = y + 1;
            }
            hexes.push(column);
            x = x + 1;
        }
        let mut stations: Vec<Vec<(usize, usize, Option<u32>)>> = Vec::new();
        let mut i: usize = 0;
        while i < 8
            invariant
                i <= 8,
                stations@.len() == i,
                forall|k: int| 0 <= k < i ==> (#[trigger] stations@[k])@.len() == 0,
            decreases 8 - i,
        {
            stations.push(Vec::new());
            i = i + 1;
        }
        let r = GameMap { width, height, hexes, homes: [None; 8], stations };
        assert(r@ =~~= MapView::new(width, height));
        r
    }

    /// Returns the number of columns of this `GameMap`
    pub fn width(&self) -> (r: usize)
        ensures
            r == self@.width,
    {
        self.width
    }

    /// Returns the number of rows of this `GameMap`
    pub fn height(&self) -> (r: usize)
        ensures
            r == self@.height,
    {
        self.height
    }

    /// Puts `hex` at column `x`, row `y`, if that place is on the map and
    /// empty, and returns whether it did
    pub fn set_hex(&mut self, x: usize, y: usize, hex: Hex) -> (done: bool)
        requires
            old(self)@.wf(),
        ensures
            done == old(self)@.can_set_hex(x, y),
            final(self)@ == (if done {
                old(self)@.set_hex(x, y, hex@)
            } else {
                old(self)@
            }),
            final(self)@.wf(),
    {
        if x < self.width && y < self.height {
            assert(self@.hexes[x as int].len() == self.height);
            if self.hexes[x][y].is_none() {
                self.hexes[x][y] = Some(hex);
                assert(self@ =~~= old(self)@.set_hex(x, y, hex@));
                return true;
            }
        }
        false
    }

    /// Returns the hex at column `x`, row `y`, if there is one
    pub fn hex(&self, x: usize, y: usize) -> (r: Option<&Hex>)
        requires
            self@.wf(),
        ensures
            x < self@.width && y < self@.height ==> (r is Some <==> self@.hexes[x as int][y as int] is Some)
                && (r matches Some(hex) ==> Some(hex@) == self@.hexes[x as int][y as int]),
            !(x < self@.width && y < self@.height) ==> r is None,
    {
        if x < self.width && y < self.height {
            assert(self@.hexes[x as int].len() == self.height);
            self.hexes[x][y].as_ref()
        } else {
            None
        }
    }

    /// Records that `pub_com` has its home at column `x`, row `y`, with
    /// its station reached from `edge`
    pub fn set_home(&mut self, pub_com: PubComId, x: usize, y: usize, edge: Option<u32>)
        requires
            old(self)@.wf(),
        ensures
            final(self)@ == old(self)@.set_home(pub_com, x, y, edge),
            final(self)@.wf(),
    {
        self.homes[pub_com.ordinal()] = Some((x, y, edge));
        assert(self@ =~~= old(self)@.set_home(pub_com, x, y, edge));
    }

    /// Returns the home of `pub_com`: column, row, and the edge from which
    /// its station is reached
    pub fn home(&self, pub_com: PubComId) -> (r: Option<(usize, usize, Option<u32>)>)
        requires
            self@.wf(),
        ensures
            r == self@.homes[pub_com.index()],
    {
        self.homes[pub_com.ordinal()]
    }

    /// Places the home station of `pub_com`, if its home is a hex of the
    /// map that can take it
    pub fn place_home_station(&mut self, pub_com: PubComId)
        requires
            old(self)@.wf(),
        ensures
            final(self)@ == old(self)@.place_home_station(pub_com),
            final(self)@.wf(),
    {
        match self.homes[pub_com.ordinal()] {
            Some(home) => {
                let edge: u32 = match home.2 {
                    Some(edge) => edge,
                    None => 0,
                };
                if home.0 < self.width && home.1 < self.height {
                    assert(self@.hexes[home.0 as int].len() == self.height);
                    match &mut self.hexes[home.0][home.1] {
                        Some(hex) => {
                            if hex.can_place_station(pub_com, edge) {
                                hex.place_station(pub_com, edge);
                            }
                        },
                        None => {},
                    }
                }
            },
            None => {},
        }
        assert(self@ =~~= old(self)@.place_home_station(pub_com));
    }

    /// Returns the `TrackLayMap` for `pub_com` on this `GameMap`.
    pub fn track_lay_map(&self, pub_com: PubComId) -> (r: TrackLayMap)
        ensures
            forall|key: (usize, usize)| #[trigger] r.lays_at(key) == Seq::<(i32, u32)>::empty(),
    {
        TrackLayMap::new()
    }
}

} // verus!
