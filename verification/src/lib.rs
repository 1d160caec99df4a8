//! Game logic for the 18xx board game 18Chesapeake: the private company
//! auction, the stock round, the ledger of capital, shares and presidencies,
//! and the sequencing of rounds and turns.

pub mod config;
pub mod economy;
pub mod game;
pub mod geography;
pub mod ids;
pub mod rounds;
pub mod train_set;

pub use game::{Action, Game};
pub use ids::{ColorId, PhaseId, PrivComId, PubComId, RoundId, TerrainId, TrainId};
pub use train_set::TrainSet;
