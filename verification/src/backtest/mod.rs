//! Backtesting: the engine shell and the types of the matching engines.

pub mod engine;
pub mod impact_config;
pub mod matching;
pub mod order_input;

pub use engine::{BacktestEngine, RunResult};
pub use impact_config::{default_depth_levels, default_model_type, ModelType};
