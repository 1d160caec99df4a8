//! A hex of the map: its terrain and what stands on it.

use crate::geography::stops::{City, CityView};
use crate::geography::tile::{Tile, TileView};
use crate::ids::{PrivComId, PubComId, TerrainId};
use vstd::prelude::*;

verus! {

/// What stands on a hex: a tile, or cities that wait for one.
#[verifier::ext_equal]
pub enum ContentView {
    Tile(TileView),
    Cities(Seq<CityView>),
}

/// A hex: its terrain, what stands on it, and the private company that it belongs to.
#[verifier::ext_equal]
pub struct HexView {
    pub terrain: TerrainId,
    pub content: Option<ContentView>,
    pub private: Option<PrivComId>,
}

impl HexView {
    /// Whether `pub_com` can place a station on the hex: on a tile, on the
    /// rail that comes from `from_edge`; without a tile, in the first city.
    pub open spec fn can_place_station(self, pub_com: PubComId, from_edge: u32) -> bool {
        match self.content {
            Some(ContentView::Tile(tile)) => tile.can_place_station(pub_com, from_edge),
            Some(ContentView::Cities(cities)) => cities.len() > 0 && cities[0].can_place_station(pub_com),
            None => false,
        }
    }

    /// The hex with a station of `pub_com`.
    pub open spec fn place_station(self, pub_com: PubComId, from_edge: u32) -> HexView {
        match self.content {
            Some(ContentView::Tile(tile)) => HexView {
                content: Some(ContentView::Tile(tile.place_station(pub_com, from_edge))),
                ..self
            },
            Some(ContentView::Cities(cities)) => HexView {
                content: Some(ContentView::Cities(cities.update(0, cities[0].place_station(pub_com)))),
                ..self
            },
            None => self,
        }
    }

    /// A company that has placed a station on a hex cannot place another there.
    pub proof fn lemma_station_placed(self, pub_com: PubComId, from_edge: u32)
        requires
            self.can_place_station(pub_com, from_edge),
        ensures
            !self.place_station(pub_com, from_edge).can_place_station(pub_com, from_edge),
    {
        match self.content {
            Some(ContentView::Tile(tile)) => {
                tile.lemma_station_placed(pub_com, from_edge);
            },
            Some(ContentView::Cities(cities)) => {
                crate::geography::stops::StopView::City(cities[0]).lemma_station_placed(pub_com);
            },
            None => {},
        }
    }

    /// The first city, from position `from` on, that is a company's home.
    pub open spec fn home_city_from(cities: Seq<CityView>, from: int) -> Option<PubComId>
        decreases cities.len() - from,
    {
        if from < 0 || from >= cities.len() {
            None
        } else if cities[from].home is Some {
            cities[from].home
        } else {
            HexView::home_city_from(cities, from + 1)
        }
    }

    /// The company that has its home on the hex, with the edge from which
    /// its station is reached: on a tile the first edge of the rail, else 0.
    pub open spec fn home(self) -> Option<(PubComId, u32)> {
        match self.content {
            Some(ContentView::Tile(tile)) => tile.home(),
            Some(ContentView::Cities(cities)) => match HexView::home_city_from(cities, 0) {
                Some(home) => Some((home, 0u32)),
                None => None,
            },
            None => None,
        }
    }
}

/// What stands on a hex
#[derive(Clone, Debug)]
pub enum Content {
    /// A tile
    Tile(Tile),
    /// Cities that wait for a tile
    Cities(Vec<City>),
}

impl View for Content {
    type V = ContentView;

    open spec fn view(&self) -> ContentView {
        match self {
            Content::Tile(tile) => ContentView::Tile(tile@),
            Content::Cities(cities) => ContentView::Cities(Seq::new(cities@.len(), |i: int| cities@[i]@)),
        }
    }
}

/// Represents a hex
#[derive(Clone, Debug)]
pub struct Hex {
    terrain: TerrainId,
    content: Option<Content>,
    private: Option<PrivComId>,
}

impl View for Hex {
    type V = HexView;

    closed spec fn view(&self) -> HexView {
        HexView {
            terrain: self.terrain,
            content: match self.content {
                Some(content) => Some(content@),
                None => None,
            },
            private: self.private,
        }
    }
}

impl Hex {
    /// Returns a hex
    pub fn new(terrain: TerrainId, content: Option<Content>, private: Option<PrivComId>) -> (r: Self)
        ensures
            r@ == (HexView {
                terrain,
                content: match content {
                    Some(content) => Some(content@),
                    None => None,
                },
                private,
            }),
    {
        Hex { terrain, content, private }
    }

    /// Returns the terrain of this `Hex`
    pub fn terrain(&self) -> (r: TerrainId)
        ensures
            r == self@.terrain,
    {
        self.terrain
    }

    /// Returns the private company that this `Hex` belongs to, if any
    pub fn private(&self) -> (r: Option<PrivComId>)
        ensures
            r == self@.private,
    {
        self.private
    }

    /// Returns whether `pub_com` can place a station on this `Hex`
    pub fn can_place_station(&self, pub_com: PubComId, from_edge: u32) -> (b: bool)
        ensures
            b == self@.can_place_station(pub_com, from_edge),
    {
        match &self.content {
            Some(Content::Tile(tile)) => tile.can_place_station(pub_com, from_edge),
            Some(Content::Cities(cities)) => cities.len() > 0 && cities[0].can_place_station(pub_com),
            None => false,
        }
    }

    /// Places a station of `pub_com` on this `Hex`: on a tile, on the
    /// rail that comes from `from_edge`; without a tile, in the first city
    pub fn place_station(&mut self, pub_com: PubComId, from_edge: u32)
        requires
            old(self)@.can_place_station(pub_com, from_edge),
        ensures
            final(self)@ == old(self)@.place_station(pub_com, from_edge),
    {
        match &mut self.content {
            Some(Content::Tile(tile)) => {
                tile.place_station(pub_com, from_edge);
            },
            Some(Content::Cities(cities)) => {
                cities[0].place_station(pub_com);
            },
            None => {},
        }
        assert(self@ =~~= old(self)@.place_station(pub_com, from_edge));
    }

    /// Returns the public company that has its home in this `Hex` and its `from_edge`, if any
    pub fn home(&self) -> (r: Option<(PubComId, u32)>)
        ensures
            r == self@.home(),
    {
        match &self.content {
            Some(Content::Tile(tile)) => tile.home(),
            Some(Content::Cities(cities)) => {
                let ghost views = Seq::new(cities@.len(), |i: int| cities@[i]@);
                let mut i: usize = 0;
                while i < cities.len()
                    invariant
                        i <= cities.len(),
                        views == Seq::new(cities@.len(), |k: int| cities@[k]@),
                        self@.content == Some(ContentView::Cities(views)),
                        HexView::home_city_from(views, 0) == HexView::home_city_from(views, i as int),
                    decreases cities.len() - i,
                {
                    assert(views[i as int] == cities@[i as int]@);
                    match cities[i].home() {
                        Some(home) => {
                            return Some((home, 0));
                        },
                        None => {},
                    }
                    i = i + 1;
                }
                None
            },
            None => None,
        }
    }
}

} // verus!
