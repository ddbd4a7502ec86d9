//! Types of the matching engines.

pub mod error;
pub mod l3;
pub mod types;

pub use error::{MatchingError, MatchingResult};
pub use types::{MatchFill, OrderBookLevel, SubmitResult, TradeRole};
