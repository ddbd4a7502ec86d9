//! Fixed delays per path.

use vstd::prelude::*;

use crate::latency::delay::{Delay, PathDelays, PathType};

verus! {

/// A fixed delay for each path; a path with none configured takes no time.
#[derive(Debug, Clone, Copy)]
pub struct ConstantLatencyModel {
    /// Delay of each path.
    pub delays: PathDelays,
}

impl ConstantLatencyModel {
    /// The same delay on every path.
    pub fn uniform(delay: Delay) -> (r: ConstantLatencyModel)
        ensures
            forall|p: PathType| r.delays.lookup(p) == Some(delay),
    {
        ConstantLatencyModel { delays: PathDelays::filled(delay) }
    }

    /// Separate delays for market data, order submission and cancellation;
    /// account queries take the submission delay and heartbeats 50 ms.
    pub fn with_paths(market_data: Delay, order_submit: Delay, order_cancel: Delay) -> (r:
        ConstantLatencyModel)
        ensures
            r.delays.lookup(PathType::MarketData) == Some(market_data),
            r.delays.lookup(PathType::OrderSubmit) == Some(order_submit),
            r.delays.lookup(PathType::OrderCancel) == Some(order_cancel),
            r.delays.lookup(PathType::AccountQuery) == Some(order_submit),
            r.delays.lookup(PathType::Heartbeat) matches Some(h) && h@ == 50_000_000,
    {
        let mut delays = PathDelays::new();
        delays.insert(PathType::MarketData, market_data);
        delays.insert(PathType::OrderSubmit, order_submit);
        delays.insert(PathType::OrderCancel, order_cancel);
        delays.insert(PathType::AccountQuery, order_submit);
        delays.insert(PathType::Heartbeat, Delay::from_millis(50));
        ConstantLatencyModel { delays }
    }

    /// Sets the delay of one path.
    pub fn set_path(&mut self, path: PathType, delay: Delay)
        ensures
            final(self).delays.lookup(path) == Some(delay),
            forall|q: PathType| q != path ==> final(self).delays.lookup(q) == old(self).delays.lookup(q),
    {
        self.delays.insert(path, delay);
    }

    /// The delay configured for a path, if any.
    pub fn get(&self, path: PathType) -> (r: Option<Delay>)
        ensures
            r == self.delays.lookup(path),
    {
        self.delays.get(path)
    }

    /// The delay of a path: the configured one, or none at all.
    pub fn sample_delay(&self, path: PathType) -> (r: Delay)
        ensures
            self.delays.lookup(path) matches Some(d) ==> r == d,
            self.delays.lookup(path) is None ==> r@ == 0,
    {
        match self.delays.get(path) {
            Some(d) => d,
            None => Delay::zero(),
        }
    }

    /// Name of the model.
    pub fn name(&self) -> (r: &'static str)
        ensures
            r@ == "constant"@,
    {
        "constant"
    }
}

} // verus!
