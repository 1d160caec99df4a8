//! The tiles of a game and how many of each there are.

use crate::geography::tile::{Tile, TileView};
use vstd::prelude::*;

verus! {

/// The place of the first entry with the id `id` from position `from` on.
pub open spec fn tile_place_from(entries: Seq<(i32, TileView, i32)>, id: i32, from: int) -> Option<int>
    decreases entries.len() - from,
{
    if from < 0 || from >= entries.len() {
        None
    } else if entries[from].0 == id {
        Some(from)
    } else {
        tile_place_from(entries, id, from + 1)
    }
}

/// Represents the tiles and their respective counts available in a game
#[derive(Clone, Debug)]
pub struct TileSet {
    tiles: Vec<(i32, Tile, i32)>,
}

impl View for TileSet {
    type V = Seq<(i32, TileView, i32)>;

    closed spec fn view(&self) -> Seq<(i32, TileView, i32)> {
        Seq::new(self.tiles@.len(), |i: int| (self.tiles@[i].0, self.tiles@[i].1@, self.tiles@[i].2))
    }
}

impl TileSet {
    /// Whether the set has a tile with the id `id`.
    pub open spec fn has(&self, id: i32) -> bool {
        tile_place_from(self@, id, 0) is Some
    }

    /// How many tiles with the id `id` there are, if the set has that tile.
    pub open spec fn spec_count(&self, id: i32) -> Option<i32> {
        match tile_place_from(self@, id, 0) {
            Some(i) => Some(self@[i].2),
            None => None,
        }
    }

    /// Returns a set without tiles
    pub fn new() -> (r: Self)
        ensures
            r@ == Seq::<(i32, TileView, i32)>::empty(),
    {
        let r = TileSet { tiles: Vec::new() };
        assert(r@ =~= Seq::<(i32, TileView, i32)>::empty());
        r
    }

    /// Returns the place of the tile with the id `id`, if the set has it
    fn find(&self, id: i32) -> (r: Option<usize>)
        ensures
            r is Some <==> self.has(id),
            r matches Some(i) ==> tile_place_from(self@, id, 0) == Some(i as int) && i < self.tiles@.len(),
    {
        let mut i: usize = 0;
        while i < self.tiles.len()
            invariant
                i <= self.tiles.len(),
                tile_place_from(self@, id, 0) == tile_place_from(self@, id, i as int),
            decreases self.tiles.len() - i,
        {
            assert(self@[i as int].0 == self.tiles@[i as int].0);
            if self.tiles[i].0 == id {
                return Some(i);
            }
            i = i + 1;
        }
        None
    }

    /// Returns whether the set has a tile with the id `id`
    pub fn contains(&self, id: i32) -> (b: bool)
        ensures
            b == self.has(id),
    {
        self.find(id).is_some()
    }

    /// Adds `count` tiles with the id `id`, if the set has none with that
    /// id, and returns whether it did
    pub fn insert(&mut self, id: i32, tile: Tile, count: i32) -> (done: bool)
        ensures
            done == !old(self).has(id),
            final(self)@ == (if done {
                old(self)@.push((id, tile@, count))
            } else {
                old(self)@
            }),
    {
        match self.find(id) {
            Some(_) => false,
            None => {
                self.tiles.push((id, tile, count));
                assert(self@ =~= old(self)@.push((id, tile@, count)));
                true
            },
        }
    }

    /// Returns how many tiles with the id `id` there are, if the set has that tile
    pub fn count(&self, id: i32) -> (r: Option<i32>)
        ensures
            r == self.spec_count(id),
    {
        match self.find(id) {
            Some(i) => {
                assert(self@[i as int].2 == self.tiles@[i as int].2);
                Some(self.tiles[i].2)
            },
            None => None,
        }
    }

    /// Returns the number of different tiles in this `TileSet`
    pub fn len(&self) -> (r: usize)
        ensures
            r == self@.len(),
    {
        self.tiles.len()
    }
}

} // verus!
