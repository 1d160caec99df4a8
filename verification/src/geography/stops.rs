//! The stops of a rail: cities and off-board locations.

use crate::ids::PubComId;
use vstd::prelude::*;

verus! {

/// A city: its value, the companies with a station in it, by
/// `PubComId::index`, the number of stations it has room for, its name, and
/// the company that has its home in it.
#[verifier::ext_equal]
pub struct CityView {
    pub value: u32,
    pub stations: Seq<bool>,
    pub spots: usize,
    pub name: Option<Seq<char>>,
    pub home: Option<PubComId>,
}

impl CityView {
    /// A city without stations.
    pub open spec fn new(value: u32, spots: usize, name: Option<Seq<char>>, home: Option<PubComId>) -> CityView {
        CityView { value, stations: Seq::new(8, |i: int| false), spots, name, home }
    }

    /// 1 if the company at position `i` has a station in the city, else 0.
    pub open spec fn station_at(self, i: int) -> nat {
        if self.stations[i] {
            1
        } else {
            0
        }
    }

    /// The number of stations in the city.
    pub open spec fn station_count(self) -> nat {
        self.station_at(0) + self.station_at(1) + self.station_at(2) + self.station_at(3)
            + self.station_at(4) + self.station_at(5) + self.station_at(6) + self.station_at(7)
    }

    /// Whether `pub_com` has a station in the city.
    pub open spec fn has_station(self, pub_com: PubComId) -> bool {
        self.stations[pub_com.index()]
    }

    /// Whether `pub_com` can place a station: the city has room, and the
    /// company has no station in it.
    pub open spec fn can_place_station(self, pub_com: PubComId) -> bool {
        self.station_count() < self.spots && !self.has_station(pub_com)
    }

    /// The city with a station of `pub_com`, beside those that it has.
    pub open spec fn place_station(self, pub_com: PubComId) -> CityView {
        CityView {
            stations: Seq::new(
                8,
                |i: int| i == pub_com.index() || (i < self.stations.len() && self.stations[i]),
            ),
            ..self
        }
    }
}

/// Represents a city
#[derive(Clone, Debug)]
pub struct City {
    value: u32,
    stations: [bool; 8],
    spots: usize,
    name: Option<String>,
    home: Option<PubComId>,
}

impl View for City {
    type V = CityView;

    closed spec fn view(&self) -> CityView {
        CityView {
            value: self.value,
            stations: self.stations@,
            spots: self.spots,
            name: match self.name {
                Some(name) => Some(name@),
                None => None,
            },
            home: self.home,
        }
    }
}

impl City {
    /// Returns a city without stations
    pub fn new(value: u32, spots: usize, name: Option<String>, home: Option<PubComId>) -> (r: Self)
        ensures
            r@ == CityView::new(
                value,
                spots,
                match name {
                    Some(name) => Some(name@),
                    None => None,
                },
                home,
            ),
    {
        let r = City { value, stations: [false; 8], spots, name, home };
        assert(r@ =~= CityView::new(
            value,
            spots,
            match name {
                Some(name) => Some(name@),
                None => None,
            },
            home,
        ));
        r
    }

    /// Returns the number of stations in this `City`
    pub fn station_count(&self) -> (n: usize)
        ensures
            n == self@.station_count(),
    {
        let mut n: usize = 0;
        let mut i: usize = 0;
        while i < 8
            invariant
                i <= 8,
                n <= i,
                n == (if i > 0 { self@.station_at(0) } else { 0 })
                    + (if i > 1 { self@.station_at(1) } else { 0 })
                    + (if i > 2 { self@.station_at(2) } else { 0 })
                    + (if i > 3 { self@.station_at(3) } else { 0 })
                    + (if i > 4 { self@.station_at(4) } else { 0 })
                    + (if i > 5 { self@.station_at(5) } else { 0 })
                    + (if i > 6 { self@.station_at(6) } else { 0 })
                    + (if i > 7 { self@.station_at(7) } else { 0 }),
            decreases 8 - i,
        {
            if self.stations[i] {
                n = n + 1;
            }
            i = i + 1;
        }
        n
    }

    /// Returns whether `pub_com` can place a station in this `City`
    pub fn can_place_station(&self, pub_com: PubComId) -> (b: bool)
        ensures
            b == self@.can_place_station(pub_com),
    {
        self.station_count() < self.spots && !self.stations[pub_com.ordinal()]
    }

    /// Places a station of `pub_com` in this `City`
    pub fn place_station(&mut self, pub_com: PubComId)
        requires
            old(self)@.can_place_station(pub_com),
        ensures
            final(self)@ == old(self)@.place_station(pub_com),
    {
        self.stations[pub_com.ordinal()] = true;
        assert(self@ =~= old(self)@.place_station(pub_com));
    }

    /// Returns whether `pub_com` has a station in this `City`
    pub fn has_station(&self, pub_com: PubComId) -> (b: bool)
        ensures
            b == self@.has_station(pub_com),
    {
        self.stations[pub_com.ordinal()]
    }

    /// Returns the public company that has its home in this `City`, if any
    pub fn home(&self) -> (r: Option<PubComId>)
        ensures
            r == self@.home,
    {
        self.home
    }
}

/// An off-board location: its four values, the company with a station in
/// it, its name, and the company that has its home in it.
#[verifier::ext_equal]
pub struct LocationView {
    pub values: Seq<u32>,
    pub station: Option<PubComId>,
    pub name: Seq<char>,
    pub home: Option<PubComId>,
}

impl LocationView {
    /// A location without a station.
    pub open spec fn new(values: Seq<u32>, name: Seq<char>, home: Option<PubComId>) -> LocationView {
        LocationView { values, station: None, name, home }
    }

    /// Whether a station can be placed: the location has none.
    pub open spec fn can_place_station(self) -> bool {
        self.station is None
    }

    /// The location with a station of `pub_com`.
    pub open spec fn place_station(self, pub_com: PubComId) -> LocationView {
        LocationView { station: Some(pub_com), ..self }
    }
}

/// Represents an off-board location
#[derive(Clone, Debug)]
pub struct Location {
    values: [u32; 4],
    station: Option<PubComId>,
    name: String,
    home: Option<PubComId>,
}

impl View for Location {
    type V = LocationView;

    closed spec fn view(&self) -> LocationView {
        LocationView { values: self.values@, station: self.station, name: self.name@, home: self.home }
    }
}

impl Location {
    /// Returns an off-board location without a station
    pub fn new(values: [u32; 4], name: String, home: Option<PubComId>) -> (r: Self)
        ensures
            r@ == LocationView::new(values@, name@, home),
    {
        Location { values, station: None, name, home }
    }

    /// Returns whether a station can be placed in this `Location`
    pub fn can_place_station(&self) -> (b: bool)
        ensures
            b == self@.can_place_station(),
    {
        self.station.is_none()
    }

    /// Places a station of `pub_com` in this `Location`
    pub fn place_station(&mut self, pub_com: PubComId)
        requires
            old(self)@.can_place_station(),
        ensures
            final(self)@ == old(self)@.place_station(pub_com),
    {
        self.station = Some(pub_com);
    }

    /// Returns the four values of this `Location`
    pub fn values(&self) -> (r: [u32; 4])
        ensures
            r@ == self@.values,
    {
        self.values
    }

    /// Returns the public company with a station in this `Location`, if any
    pub fn station(&self) -> (r: Option<PubComId>)
        ensures
            r == self@.station,
    {
        self.station
    }

    /// Returns the public company that has its home in this `Location`, if any
    pub fn home(&self) -> (r: Option<PubComId>)
        ensures
            r == self@.home,
    {
        self.home
    }
}

/// A train stop: a city or an off-board location.
#[verifier::ext_equal]
pub enum StopView {
    City(CityView),
    Location(LocationView),
}

impl StopView {
    /// Whether `pub_com` can place a station at the stop.
    pub open spec fn can_place_station(self, pub_com: PubComId) -> bool {
        match self {
            StopView::City(city) => city.can_place_station(pub_com),
            StopView::Location(location) => location.can_place_station(),
        }
    }

    /// The stop with a station of `pub_com`.
    pub open spec fn place_station(self, pub_com: PubComId) -> StopView {
        match self {
            StopView::City(city) => StopView::City(city.place_station(pub_com)),
            StopView::Location(location) => StopView::Location(location.place_station(pub_com)),
        }
    }

    /// The company that has its home at the stop, if any.
    pub open spec fn home(self) -> Option<PubComId> {
        match self {
            StopView::City(city) => city.home,
            StopView::Location(location) => location.home,
        }
    }
}

impl StopView {
    /// A company that has placed a station at a stop cannot place another there.
    pub proof fn lemma_station_placed(self, pub_com: PubComId)
        ensures
            !self.place_station(pub_com).can_place_station(pub_com),
    {
        assert(0 <= pub_com.index() < 8);
    }
}

/// Represents a train stop
#[derive(Clone, Debug)]
pub enum Stop {
    /// Stop with a city
    City(City),
    /// Stop with an off-board location
    Location(Location),
}

impl View for Stop {
    type V = StopView;

    open spec fn view(&self) -> StopView {
        match self {
            Stop::City(city) => StopView::City(city@),
            Stop::Location(location) => StopView::Location(location@),
        }
    }
}

impl Stop {
    /// Returns whether `pub_com` can place a station at this `Stop`
    pub fn can_place_station(&self, pub_com: PubComId) -> (b: bool)
        ensures
            b == self@.can_place_station(pub_com),
    {
        match self {
            Stop::City(city) => city.can_place_station(pub_com),
            Stop::Location(location) => location.can_place_station(),
        }
    }

    /// Places a station of `pub_com` at this `Stop`
    pub fn place_station(&mut self, pub_com: PubComId)
        requires
            old(self)@.can_place_station(pub_com),
        ensures
            final(self)@ == old(self)@.place_station(pub_com),
    {
        match self {
            Stop::City(city) => {
                city.place_station(pub_com);
            },
            Stop::Location(location) => {
                location.place_station(pub_com);
            },
        }
    }

    /// Returns the public company that has its home at this `Stop`, if any
    pub fn home(&self) -> (r: Option<PubComId>)
        ensures
            r == self@.home(),
    {
        match self {
            Stop::City(city) => city.home(),
            Stop::Location(location) => location.home(),
        }
    }
}

} // verus!
