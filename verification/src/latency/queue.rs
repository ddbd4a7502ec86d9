//! An exchange processing queue: a base delay plus a processing time for each
//! order waiting ahead.

use vstd::prelude::*;

use crate::latency::delay::{max_delay, Delay, PathType};

verus! {

/// Weight of the base delay on a path, in quarters: full for order submission,
/// half for cancellation, a quarter for the rest.
pub open spec fn path_quarters(path: PathType) -> int {
    match path {
        PathType::OrderSubmit => 4,
        PathType::OrderCancel => 2,
        _ => 1,
    }
}

/// Delay on a path with `queue` orders waiting: a share of the base delay (taken
/// in whole quarters, each rounded down to a nanosecond) plus one processing time
/// per waiting order. The queue length is taken modulo `2^32`.
pub open spec fn queue_delay(base: int, processing: int, queue: int, path: PathType) -> int {
    (base / 4) * path_quarters(path) + processing * (queue % 0x1_0000_0000)
}

/// Queue length after one more arrival: one more, held to the cap (and to `usize::MAX`).
pub open spec fn after_enqueue(len: int, cap: int) -> int {
    let grown = if len < usize::MAX { len + 1 } else { len };
    if grown < cap {
        grown
    } else {
        cap
    }
}

/// A processing queue whose length the caller drives.
#[derive(Debug, Clone, Copy)]
pub struct QueueLatencyModel {
    /// Base delay.
    pub base_delay: Delay,
    /// Processing time of one queued order.
    pub processing_time: Delay,
    /// Cap on the queue length.
    pub max_queue_length: usize,
    /// Current queue length; only `enqueue`, `dequeue` and `set_queue_length` change it.
    queue_length: usize,
}

impl QueueLatencyModel {
    /// Current queue length.
    pub closed spec fn length(self) -> int {
        self.queue_length as int
    }

    /// Base delay.
    pub closed spec fn base(self) -> Delay {
        self.base_delay
    }

    /// Processing time of one queued order.
    pub closed spec fn processing(self) -> Delay {
        self.processing_time
    }

    /// Cap on the queue length.
    pub closed spec fn cap(self) -> usize {
        self.max_queue_length
    }


    /// An empty queue with a cap of 10 000 orders.
    pub fn new(base_delay: Delay, processing_time: Delay) -> (r: QueueLatencyModel)
        ensures
            r.base() == base_delay,
            r.processing() == processing_time,
            r.cap() == 10_000,
            r.length() == 0,
    {
        QueueLatencyModel { base_delay, processing_time, max_queue_length: 10_000, queue_length: 0 }
    }

    /// The same model with another cap (the current length is kept as it is).
    pub fn with_max_queue_length(self, max: usize) -> (r: QueueLatencyModel)
        ensures
            r.cap() == max,
            r.base() == self.base(),
            r.processing() == self.processing(),
            r.length() == self.length(),
    {
        QueueLatencyModel { max_queue_length: max, ..self }
    }

    /// An order arrives: the queue grows by one, up to the cap.
    pub fn enqueue(&mut self)
        ensures
            final(self).length() == after_enqueue(old(self).length(), old(self).cap() as int),
            final(self).length() <= final(self).cap(),
            final(self).cap() == old(self).cap(),
            final(self).base() == old(self).base(),
            final(self).processing() == old(self).processing(),
    {
        let grown = self.queue_length.saturating_add(1);
        self.queue_length = if grown < self.max_queue_length {
            grown
        } else {
            self.max_queue_length
        };
    }

    /// An order is done: the queue shrinks by one, not below zero.
    pub fn dequeue(&mut self)
        ensures
            final(self).length() == (if old(self).length() > 0 {
                old(self).length() - 1
            } else {
                0
            }),
            final(self).cap() == old(self).cap(),
            final(self).base() == old(self).base(),
            final(self).processing() == old(self).processing(),
    {
        self.queue_length = self.queue_length.saturating_sub(1);
    }

    /// Sets the queue length, held to the cap.
    pub fn set_queue_length(&mut self, length: usize)
        ensures
            final(self).length() == (if length < old(self).cap() {
                length as int
            } else {
                old(self).cap() as int
            }),
            final(self).cap() == old(self).cap(),
            final(self).base() == old(self).base(),
            final(self).processing() == old(self).processing(),
    {
        self.queue_length = if length < self.max_queue_length {
            length
        } else {
            self.max_queue_length
        };
    }

    /// Current queue length.
    pub fn queue_length(&self) -> (r: usize)
        ensures
            r == self.length(),
    {
        self.queue_length
    }

    /// Weight of the base delay on a path, in quarters.
    fn path_factor(&self, path: PathType) -> (r: u32)
        ensures
            r == path_quarters(path),
    {
        match path {
            PathType::OrderSubmit => 4,
            PathType::OrderCancel => 2,
            _ => 1,
        }
    }

    /// The delay that a path sees now, or `None` when it is longer than the
    /// longest delay there is.
    pub fn checked_sample_delay(&self, path: PathType) -> (r: Option<Delay>)
        ensures
            r is Some <==> queue_delay(self.base()@, self.processing()@, self.length(), path) <= max_delay(),
            r matches Some(d) ==> d@ == queue_delay(self.base()@, self.processing()@, self.length(), path),
    {
        let factor = self.path_factor(path) as u128;
        assert(1 <= factor <= 4);
        let quarter = self.base_delay.as_nanos() / 4;
        assert(quarter * factor <= quarter * 4) by (nonlinear_arith)
            requires
                factor <= 4,
        ;
        let base = quarter * factor;
        let waiting = (self.queue_length as u128) % 0x1_0000_0000;
        let per_order = self.processing_time.as_nanos();
        assert(per_order * waiting <= max_delay() * 0xffff_ffff) by (nonlinear_arith)
            requires
                per_order <= max_delay(),
                waiting <= 0xffff_ffff,
        ;
        let queued = per_order * waiting;
        assert(base <= max_delay());
        let total = base + queued;
        if total <= 18_446_744_073_709_551_615_999_999_999u128 {
            Some(Delay::from_total_nanos(total))
        } else {
            None
        }
    }

    /// The delay that a path sees now: the base share plus one processing time
    /// per queued order.
    pub fn sample_delay(&self, path: PathType) -> (r: Delay)
        requires
            queue_delay(self.base()@, self.processing()@, self.length(), path) <= max_delay(),
        ensures
            r@ == queue_delay(self.base()@, self.processing()@, self.length(), path),
    {
        match self.checked_sample_delay(path) {
            Some(d) => d,
            None => Delay::zero(),
        }
    }

    /// Name of the model.
    pub fn name(&self) -> (r: &'static str)
        ensures
            r@ == "queue"@,
    {
        "queue"
    }
}

/// The delay never shrinks as the queue grows (below `2^32` orders).
pub proof fn queue_delay_grows_with_length(
    base: int,
    processing: int,
    shorter: int,
    longer: int,
    path: PathType,
)
    requires
        0 <= processing,
        0 <= shorter <= longer < 0x1_0000_0000,
    ensures
        queue_delay(base, processing, shorter, path) <= queue_delay(base, processing, longer, path),
        processing > 0 && shorter < longer ==> queue_delay(base, processing, shorter, path)
            < queue_delay(base, processing, longer, path),
{
    assert(shorter % 0x1_0000_0000 == shorter);
    assert(longer % 0x1_0000_0000 == longer);
    assert(processing * shorter <= processing * longer) by (nonlinear_arith)
        requires
            0 <= processing,
            shorter <= longer,
    ;
    assert(processing > 0 && shorter < longer ==> processing * shorter < processing * longer)
        by (nonlinear_arith);
}

/// Queued orders cost one processing time each, on every path: the delay
/// with `queue` orders waiting (below `2^32`) is the delay with none waiting
/// plus `processing * queue`. The path only weighs the base delay: with
/// nobody waiting, an order submission sees the whole base delay (in whole
/// quarters), a cancellation half of it, and every other path a quarter.
pub proof fn queued_orders_cost_one_processing_time_each(
    base: int,
    processing: int,
    queue: int,
    path: PathType,
)
    requires
        0 <= queue < 0x1_0000_0000,
    ensures
        queue_delay(base, processing, queue, path) - queue_delay(base, processing, 0, path)
            == processing * queue,
        queue_delay(base, processing, 0, PathType::OrderSubmit) == (base / 4) * 4,
        queue_delay(base, processing, 0, PathType::OrderCancel) == (base / 4) * 2,
        queue_delay(base, processing, 0, PathType::MarketData) == base / 4,
        queue_delay(base, processing, 0, PathType::AccountQuery) == base / 4,
        queue_delay(base, processing, 0, PathType::Heartbeat) == base / 4,
{
    assert(queue % 0x1_0000_0000 == queue);
    assert(0int % 0x1_0000_0000 == 0);
}

} // verus!
