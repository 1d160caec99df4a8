//! A rail: a piece of track between edges of a hex, with the stop on it.

use crate::geography::stops::{Stop, StopView};
use crate::ids::PubComId;
use vstd::prelude::*;

verus! {

/// A rail: the edges of the hex that it joins, and the stop on it, if any.
#[verifier::ext_equal]
pub struct RailView {
    pub edges: Seq<u32>,
    pub stop: Option<StopView>,
}

impl RailView {
    /// Whether `pub_com` can place a station on the rail: it has a stop that can take one.
    pub open spec fn can_place_station(self, pub_com: PubComId) -> bool {
        self.stop matches Some(stop) && stop.can_place_station(pub_com)
    }

    /// The rail with a station of `pub_com` at its stop.
    pub open spec fn place_station(self, pub_com: PubComId) -> RailView {
        match self.stop {
            Some(stop) => RailView { stop: Some(stop.place_station(pub_com)), ..self },
            None => self,
        }
    }
}

/// Represents a rail
#[derive(Clone, Debug)]
pub struct Rail {
    edges: Vec<u32>,
    stop: Option<Stop>,
}

impl View for Rail {
    type V = RailView;

    closed spec fn view(&self) -> RailView {
        RailView {
            edges: self.edges@,
            stop: match self.stop {
                Some(stop) => Some(stop@),
                None => None,
            },
        }
    }
}

impl Rail {
    /// Returns a rail between `edges` with the stop `stop`
    pub fn new(edges: Vec<u32>, stop: Option<Stop>) -> (r: Self)
        ensures
            r@ == (RailView {
                edges: edges@,
                stop: match stop {
                    Some(stop) => Some(stop@),
                    None => None,
                },
            }),
    {
        Rail { edges, stop }
    }

    /// Returns whether `pub_com` can place a station on this `Rail`
    pub fn can_place_station(&self, pub_com: PubComId) -> (b: bool)
        ensures
            b == self@.can_place_station(pub_com),
    {
        match &self.stop {
            Some(stop) => stop.can_place_station(pub_com),
            None => false,
        }
    }

    /// Places a station of `pub_com` at the stop of this `Rail`
    pub fn place_station(&mut self, pub_com: PubComId)
        requires
            old(self)@.can_place_station(pub_com),
        ensures
            final(self)@ == old(self)@.place_station(pub_com),
    {
        match &mut self.stop {
            Some(stop) => {
                stop.place_station(pub_com);
            },
            None => {},
        }
    }

    /// Returns whether this `Rail` reaches the edge `edge` of its hex
    pub fn reaches(&self, edge: u32) -> (b: bool)
        ensures
            b == self@.edges.contains(edge),
    {
        let mut i: usize = 0;
        while i < self.edges.len()
            invariant
                i <= self.edges.len(),
                forall|j: int| 0 <= j < i ==> self.edges@[j] != edge,
            decreases self.edges.len() - i,
        {
            if self.edges[i] == edge {
                assert(self@.edges[i as int] == edge);
                return true;
            }
            i = i + 1;
        }
        false
    }

    /// Returns the edges of this `Rail`
    pub fn edges(&self) -> (r: &[u32])
        ensures
            r@ == self@.edges,
    {
        self.edges.as_slice()
    }

    /// Returns the stop of this rail, if any
    pub fn stop(&self) -> (r: Option<&Stop>)
        ensures
            r is Some <==> self@.stop is Some,
            r matches Some(stop) ==> Some(stop@) == self@.stop,
    {
        self.stop.as_ref()
    }
}

} // verus!
