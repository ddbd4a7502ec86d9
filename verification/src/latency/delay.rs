//! Delays, communication paths, and a delay per path.

use vstd::prelude::*;

verus! {

/// Largest delay, in nanoseconds: that of `std::time::Duration::MAX`.
pub open spec fn max_delay() -> int {
    18_446_744_073_709_551_615_999_999_999int
}

/// A span of time, in nanoseconds, no longer than `std::time::Duration::MAX`.
#[derive(Debug, Default, Clone, Copy, PartialEq, Eq, PartialOrd, Ord, Hash, Structural)]
pub struct Delay {
    nanos: u128,
}

impl View for Delay {
    type V = int;

    closed spec fn view(&self) -> int {
        self.nanos as int
    }
}

impl Delay {
    #[verifier::type_invariant]
    spec fn inv(self) -> bool {
        self.nanos <= max_delay()
    }

    /// No delay at all.
    pub fn zero() -> (r: Delay)
        ensures
            r@ == 0,
    {
        Delay { nanos: 0 }
    }

    /// A delay of `nanos` nanoseconds.
    pub fn from_nanos(nanos: u64) -> (r: Delay)
        ensures
            r@ == nanos,
    {
        Delay { nanos: nanos as u128 }
    }

    /// A delay of `micros` microseconds.
    pub fn from_micros(micros: u64) -> (r: Delay)
        ensures
            r@ == micros * 1000,
    {
        Delay { nanos: micros as u128 * 1000 }
    }

    /// A delay of `millis` milliseconds.
    pub fn from_millis(millis: u64) -> (r: Delay)
        ensures
            r@ == millis * 1_000_000,
    {
        Delay { nanos: millis as u128 * 1_000_000 }
    }

    /// A delay of `secs` seconds.
    pub fn from_secs(secs: u64) -> (r: Delay)
        ensures
            r@ == secs * 1_000_000_000,
    {
        Delay { nanos: secs as u128 * 1_000_000_000 }
    }

    /// A delay of `secs` seconds and `subsec_nanos` nanoseconds; whole seconds
    /// among the nanoseconds are carried into the seconds. The total must not
    /// go beyond `u64::MAX` seconds and 999 999 999 nanoseconds.
    pub fn new(secs: u64, subsec_nanos: u32) -> (r: Delay)
        requires
            secs * 1_000_000_000 + subsec_nanos <= max_delay(),
        ensures
            r@ == secs * 1_000_000_000 + subsec_nanos,
    {
        Delay { nanos: secs as u128 * 1_000_000_000 + subsec_nanos as u128 }
    }

    /// A delay of `nanos` nanoseconds, within the range of delays.
    pub(crate) fn from_total_nanos(nanos: u128) -> (r: Delay)
        requires
            nanos <= max_delay(),
        ensures
            r@ == nanos,
    {
        Delay { nanos }
    }

    /// Length in nanoseconds.
    pub fn as_nanos(&self) -> (r: u128)
        ensures
            r == self@,
            r <= max_delay(),
    {
        proof {
            use_type_invariant(self);
        }
        self.nanos
    }
}

/// Kind of communication path; each has its own delay.
#[derive(Debug, Clone, Copy, PartialEq, Eq, Hash, Structural)]
pub enum PathType {
    /// Market data coming in.
    MarketData,
    /// An order going out.
    OrderSubmit,
    /// A cancellation going out.
    OrderCancel,
    /// An account query.
    AccountQuery,
    /// A heartbeat.
    Heartbeat,
}

impl PathType {
    /// Every path, in a fixed order.
    pub fn all() -> (r: [PathType; 5])
        ensures
            r@ == seq![
                PathType::MarketData,
                PathType::OrderSubmit,
                PathType::OrderCancel,
                PathType::AccountQuery,
                PathType::Heartbeat,
            ],
    {
        [
            PathType::MarketData,
            PathType::OrderSubmit,
            PathType::OrderCancel,
            PathType::AccountQuery,
            PathType::Heartbeat,
        ]
    }

    /// Name of the path, for logs and serialisation.
    pub fn as_str(&self) -> (r: &'static str)
        ensures
            r@ == match *self {
                PathType::MarketData => "market_data"@,
                PathType::OrderSubmit => "order_submit"@,
                PathType::OrderCancel => "order_cancel"@,
                PathType::AccountQuery => "account_query"@,
                PathType::Heartbeat => "heartbeat"@,
            },
    {
        match self {
            PathType::MarketData => "market_data",
            PathType::OrderSubmit => "order_submit",
            PathType::OrderCancel => "order_cancel",
            PathType::AccountQuery => "account_query",
            PathType::Heartbeat => "heartbeat",
        }
    }
}

/// A delay for each path that has one configured.
#[derive(Debug, Default, Clone, Copy, PartialEq, Eq)]
pub struct PathDelays {
    market_data: Option<Delay>,
    order_submit: Option<Delay>,
    order_cancel: Option<Delay>,
    account_query: Option<Delay>,
    heartbeat: Option<Delay>,
}

/// Number of configured entries of an option.
pub open spec fn present(o: Option<Delay>) -> nat {
    if o is Some {
        1
    } else {
        0
    }
}

impl PathDelays {
    /// The delay configured for `path`, if any.
    pub closed spec fn lookup(self, path: PathType) -> Option<Delay> {
        match path {
            PathType::MarketData => self.market_data,
            PathType::OrderSubmit => self.order_submit,
            PathType::OrderCancel => self.order_cancel,
            PathType::AccountQuery => self.account_query,
            PathType::Heartbeat => self.heartbeat,
        }
    }

    /// Number of configured paths.
    pub open spec fn count(self) -> nat {
        present(self.lookup(PathType::MarketData)) + present(self.lookup(PathType::OrderSubmit))
            + present(self.lookup(PathType::OrderCancel)) + present(
            self.lookup(PathType::AccountQuery),
        ) + present(self.lookup(PathType::Heartbeat))
    }

    /// No path configured.
    pub fn new() -> (r: PathDelays)
        ensures
            forall|p: PathType| r.lookup(p) is None,
    {
        PathDelays {
            market_data: None,
            order_submit: None,
            order_cancel: None,
            account_query: None,
            heartbeat: None,
        }
    }

    /// The same delay on every path.
    pub fn filled(delay: Delay) -> (r: PathDelays)
        ensures
            forall|p: PathType| r.lookup(p) == Some(delay),
    {
        PathDelays {
            market_data: Some(delay),
            order_submit: Some(delay),
            order_cancel: Some(delay),
            account_query: Some(delay),
            heartbeat: Some(delay),
        }
    }

    /// The delay configured for `path`, if any.
    pub fn get(&self, path: PathType) -> (r: Option<Delay>)
        ensures
            r == self.lookup(path),
    {
        match path {
            PathType::MarketData => self.market_data,
            PathType::OrderSubmit => self.order_submit,
            PathType::OrderCancel => self.order_cancel,
            PathType::AccountQuery => self.account_query,
            PathType::Heartbeat => self.heartbeat,
        }
    }

    /// Sets the delay of `path`; returns the one it replaces.
    pub fn insert(&mut self, path: PathType, delay: Delay) -> (r: Option<Delay>)
        ensures
            r == old(self).lookup(path),
            final(self).lookup(path) == Some(delay),
            forall|q: PathType| q != path ==> final(self).lookup(q) == old(self).lookup(q),
    {
        let previous = self.get(path);
        match path {
            PathType::MarketData => self.market_data = Some(delay),
            PathType::OrderSubmit => self.order_submit = Some(delay),
            PathType::OrderCancel => self.order_cancel = Some(delay),
            PathType::AccountQuery => self.account_query = Some(delay),
            PathType::Heartbeat => self.heartbeat = Some(delay),
        }
        previous
    }

    /// Clears the delay of `path`; returns the one it held.
    pub fn remove(&mut self, path: PathType) -> (r: Option<Delay>)
        ensures
            r == old(self).lookup(path),
            final(self).lookup(path) is None,
            forall|q: PathType| q != path ==> final(self).lookup(q) == old(self).lookup(q),
    {
        let previous = self.get(path);
        match path {
            PathType::MarketData => self.market_data = None,
            PathType::OrderSubmit => self.order_submit = None,
            PathType::OrderCancel => self.order_cancel = None,
            PathType::AccountQuery => self.account_query = None,
            PathType::Heartbeat => self.heartbeat = None,
        }
        previous
    }

    /// Number of configured paths.
    pub fn len(&self) -> (r: usize)
        ensures
            r == self.count(),
    {
        let mut n: usize = 0;
        if self.market_data.is_some() {
            n += 1;
        }
        if self.order_submit.is_some() {
            n += 1;
        }
        if self.order_cancel.is_some() {
            n += 1;
        }
        if self.account_query.is_some() {
            n += 1;
        }
        if self.heartbeat.is_some() {
            n += 1;
        }
        n
    }

    /// Whether no path is configured.
    pub fn is_empty(&self) -> (r: bool)
        ensures
            r == (self.count() == 0),
    {
        self.len() == 0
    }
}

} // verus!
