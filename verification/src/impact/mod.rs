//! Market impact models: their errors (the models themselves compute in floating point).

pub mod error;

pub use error::{ImpactModelError, ImpactModelResult};
