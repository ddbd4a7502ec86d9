//! Exchange fee models: per-volume fee tiers, discounts, funding and totals.

pub mod defaults;
pub mod error;
pub mod role;
pub mod table;
pub mod types;

pub use error::{FeeModelError, FeeModelResult};
pub use role::TradeRole;
pub use table::FeeTable;
pub use types::{ExchangeId, FeeBreakdown, FeeRecord, FeeType, VolumeTier};
pub mod model;

pub use model::{FeeModel, FeePosition, FeeTrade, TieredFeeModel};
