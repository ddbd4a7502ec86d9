//! Uniformly distributed delays between a minimum and a maximum per path.

use vstd::prelude::*;

use rand::Rng;

use crate::latency::delay::{Delay, PathDelays, PathType};

verus! {

/// `rand::Rng::gen_range` on the thread-local generator: a number in `lo..hi`.
/// Which one is left to chance.
#[verifier::external_body]
fn random_in(lo: u128, hi: u128) -> (r: u128)
    requires
        lo < hi,
    ensures
        lo <= r < hi,
{
    rand::thread_rng().gen_range(lo..hi)
}

/// Delays drawn uniformly between a minimum and a maximum, per path.
#[derive(Debug, Clone, Copy)]
pub struct UniformLatencyModel {
    /// Minimum of each path.
    pub mins: PathDelays,
    /// Maximum of each path.
    pub maxs: PathDelays,
}

impl UniformLatencyModel {
    /// The same bounds on every path (when `max <= min`, every draw is `min`).
    pub fn uniform(min: Delay, max: Delay) -> (r: UniformLatencyModel)
        ensures
            forall|p: PathType| r.mins.lookup(p) == Some(min),
            forall|p: PathType| r.maxs.lookup(p) == Some(max),
    {
        UniformLatencyModel { mins: PathDelays::filled(min), maxs: PathDelays::filled(max) }
    }

    /// Bounds of a path: the configured ones, else no delay and 10 ms.
    pub fn bounds(&self, path: PathType) -> (r: (Delay, Delay))
        ensures
            match self.mins.lookup(path) {
                Some(m) => r.0 == m,
                None => r.0@ == 0,
            },
            match self.maxs.lookup(path) {
                Some(m) => r.1 == m,
                None => r.1@ == 10_000_000,
            },
    {
        let min = match self.mins.get(path) {
            Some(m) => m,
            None => Delay::zero(),
        };
        let max = match self.maxs.get(path) {
            Some(m) => m,
            None => Delay::from_millis(10),
        };
        (min, max)
    }

    /// A random delay of a path: the minimum when the maximum is not above it,
    /// else a draw from the minimum (included) to the maximum (excluded).
    pub fn sample_delay(&self, path: PathType) -> (r: Delay)
        ensures
            ({
                let (min, max) = self.bounds_of(path);
                &&& max <= min ==> r@ == min
                &&& min < max ==> min <= r@ < max
            }),
    {
        let (min, max) = self.bounds(path);
        let lo = min.as_nanos();
        let hi = max.as_nanos();
        if hi <= lo {
            return min;
        }
        Delay::from_total_nanos(random_in(lo, hi))
    }

    /// Bounds of a path in nanoseconds, as `bounds` gives them.
    pub open spec fn bounds_of(self, path: PathType) -> (int, int) {
        let min = match self.mins.lookup(path) {
            Some(m) => m@,
            None => 0,
        };
        let max = match self.maxs.lookup(path) {
            Some(m) => m@,
            None => 10_000_000,
        };
        (min, max)
    }

    /// Name of the model.
    pub fn name(&self) -> (r: &'static str)
        ensures
            r@ == "uniform"@,
    {
        "uniform"
    }
}

} // verus!
