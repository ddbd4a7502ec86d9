//! Market simulation core: market data, fees, latency, events and an audit trail.

pub mod backtest;
pub mod build_info;
pub mod compliance;
pub mod decimal;
pub mod decimal_ord;
pub mod error;
pub mod event;
pub mod fee;
pub mod impact;
pub mod latency;
pub mod market;
pub mod order;
pub mod queue;
pub mod text;
pub mod types;
pub mod volatility;
