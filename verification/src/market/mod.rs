//! Market data: ticks, trades, bars and order book snapshots.

pub mod bar;
pub mod error;
pub mod orderbook;
pub mod side;
pub mod tick;
pub mod trade;

pub use bar::{Bar, BarPeriod};
pub use error::{MarketDataError, MarketDataResult};
pub use orderbook::{OrderBookLevel, OrderBookSnapshot};
pub use side::Side;
pub use tick::Tick;
pub use trade::Trade;
