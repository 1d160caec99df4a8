//! Game economy logic

pub mod par_track;
pub mod player;
pub mod pub_com;
pub mod shares;
pub mod stock_chart;

pub use par_track::ParTrack;
pub use player::Player;
pub use pub_com::PubCom;
pub use shares::Shares;
pub use stock_chart::StockChart;
