//! Latency models: how long market data, orders and queries take on their way.

pub mod constant;
pub mod delay;
pub mod error;
pub mod normal;
pub mod queue;
pub mod uniform;

pub use constant::ConstantLatencyModel;
pub use delay::{Delay, PathDelays, PathType};
pub use error::{LatencyModelError, LatencyModelResult};
pub use normal::NormalLatencyModel;
pub use queue::QueueLatencyModel;
pub use uniform::UniformLatencyModel;
