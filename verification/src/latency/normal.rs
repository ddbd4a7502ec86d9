//! Normally distributed delays: a mean and a standard deviation per path.

use vstd::prelude::*;

use crate::latency::delay::{Delay, PathDelays, PathType};

verus! {

/// Delays drawn from a normal distribution per path (negative draws become zero).
#[derive(Debug, Clone, Copy)]
pub struct NormalLatencyModel {
    /// Mean of each path.
    pub means: PathDelays,
    /// Standard deviation of each path.
    pub std_devs: PathDelays,
}

impl NormalLatencyModel {
    /// The same mean and standard deviation on every path.
    pub fn uniform(mean: Delay, std_dev: Delay) -> (r: NormalLatencyModel)
        ensures
            forall|p: PathType| r.means.lookup(p) == Some(mean),
            forall|p: PathType| r.std_devs.lookup(p) == Some(std_dev),
    {
        NormalLatencyModel { means: PathDelays::filled(mean), std_devs: PathDelays::filled(std_dev) }
    }

    /// Mean and standard deviation of a path: the configured ones, else 1 ms each.
    pub fn parameters(&self, path: PathType) -> (r: (Delay, Delay))
        ensures
            match self.means.lookup(path) {
                Some(m) => r.0 == m,
                None => r.0@ == 1_000_000,
            },
            match self.std_devs.lookup(path) {
                Some(s) => r.1 == s,
                None => r.1@ == 1_000_000,
            },
    {
        let mean = match self.means.get(path) {
            Some(m) => m,
            None => Delay::from_millis(1),
        };
        let std_dev = match self.std_devs.get(path) {
            Some(s) => s,
            None => Delay::from_millis(1),
        };
        (mean, std_dev)
    }

    /// Name of the model.
    pub fn name(&self) -> (r: &'static str)
        ensures
            r@ == "normal"@,
    {
        "normal"
    }
}

} // verus!
