//! Game rounds logic

pub mod operating_round;
pub mod priv_auction;
pub mod stock_round;

pub use operating_round::OperatingRound;
pub use priv_auction::PrivAuction;
pub use stock_round::StockRound;
