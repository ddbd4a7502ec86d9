//! Defaults of the impact model configuration of the impacted matching engine.

use vstd::prelude::*;

verus! {

/// Kind of market impact model.
#[derive(Debug, Clone, Copy, PartialEq, Eq, Hash, Structural)]
pub enum ModelType {
    /// Linear impact (the default).
    Linear,
    /// Power-law impact.
    PowerLaw,
}

impl Default for ModelType {
    /// Linear impact.
    fn default() -> (r: ModelType)
        ensures
            r == ModelType::Linear,
    {
        ModelType::Linear
    }
}

/// Model kind used when a configuration names none: linear.
pub fn default_model_type() -> (r: ModelType)
    ensures
        r == ModelType::Linear,
{
    ModelType::Linear
}

/// Book depth used when a configuration names none: ten levels.
pub fn default_depth_levels() -> (r: usize)
    ensures
        r == 10,
{
    10
}

} // verus!
