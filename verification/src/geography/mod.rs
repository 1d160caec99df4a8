//! Game geography logic

pub mod hex;
pub mod map;
pub mod rail;
pub mod stops;
pub mod tile;
pub mod tile_set;
pub mod track_lay_map;

pub use hex::{Content, Hex};
pub use map::GameMap;
pub use rail::Rail;
pub use stops::{City, Location, Stop};
pub use tile::Tile;
pub use tile_set::TileSet;
pub use track_lay_map::TrackLayMap;
