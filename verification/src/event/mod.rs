//! Events: kinds, payloads, sequence numbering, subscribers and routing.

pub mod builder;
pub mod error;
pub mod fill;
pub mod handler;
pub mod market;
pub mod router;
pub mod system;
pub mod types;

pub use builder::EventBuilder;
pub use error::{EventError, EventResult};
pub use fill::FillEvent;
pub use handler::EventHandler;
pub use market::{MarketDataEvent, MarketDataPayload};
pub use router::{EventCollector, EventRouter};
pub use system::{SystemAction, SystemEvent};
pub use types::{Event, EventType, OrderAction, OrderEvent};
