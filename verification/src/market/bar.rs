//! Bars (candles): open, high, low, close and volume over a period.

use vstd::prelude::*;

use crate::market::error::MarketDataError;
use crate::market::tick::Tick;
use crate::types::{clamp_i64, Price, Quantity, Timestamp};

verus! {

/// Length of a bar.
#[derive(Debug, Clone, Copy, PartialEq, Eq, Hash, Structural)]
pub enum BarPeriod {
    /// One minute.
    OneMinute,
    /// Five minutes.
    FiveMinutes,
    /// Fifteen minutes.
    FifteenMinutes,
    /// Thirty minutes.
    ThirtyMinutes,
    /// One hour.
    OneHour,
    /// Four hours.
    FourHours,
    /// One day.
    OneDay,
    /// One week.
    OneWeek,
    /// One month, taken as thirty days.
    OneMonth,
}

/// Length of a period in minutes.
pub open spec fn period_minutes(p: BarPeriod) -> int {
    match p {
        BarPeriod::OneMinute => 1,
        BarPeriod::FiveMinutes => 5,
        BarPeriod::FifteenMinutes => 15,
        BarPeriod::ThirtyMinutes => 30,
        BarPeriod::OneHour => 60,
        BarPeriod::FourHours => 240,
        BarPeriod::OneDay => 1440,
        BarPeriod::OneWeek => 10080,
        BarPeriod::OneMonth => 43200,
    }
}

impl BarPeriod {
    /// Length of the period in nanoseconds.
    pub fn nanos(self) -> (r: i64)
        ensures
            r == period_minutes(self) * 60_000_000_000,
    {
        match self {
            BarPeriod::OneMinute => 60_000_000_000,
            BarPeriod::FiveMinutes => 300_000_000_000,
            BarPeriod::FifteenMinutes => 900_000_000_000,
            BarPeriod::ThirtyMinutes => 1_800_000_000_000,
            BarPeriod::OneHour => 3_600_000_000_000,
            BarPeriod::FourHours => 14_400_000_000_000,
            BarPeriod::OneDay => 86_400_000_000_000,
            BarPeriod::OneWeek => 604_800_000_000_000,
            BarPeriod::OneMonth => 2_592_000_000_000_000,
        }
    }
}

/// Sum of the quantities of a run of ticks.
pub open spec fn tick_volume(s: Seq<Tick>) -> int
    decreases s.len(),
{
    if s.len() == 0 {
        0
    } else {
        tick_volume(s.drop_last()) + s.last().quantity@
    }
}

/// A bar of market data.
#[derive(Debug, Default, Clone, Copy, PartialEq, Eq, Hash)]
pub struct Bar {
    /// Start of the bar.
    pub timestamp: Timestamp,
    /// Opening price.
    pub open: Price,
    /// Highest price.
    pub high: Price,
    /// Lowest price.
    pub low: Price,
    /// Closing price.
    pub close: Price,
    /// Traded volume.
    pub volume: Quantity,
}

impl Bar {
    /// The high is at least the low, and the open and the close lie between them.
    pub open spec fn ohlc_consistent(self) -> bool {
        &&& self.low@ <= self.high@
        &&& self.low@ <= self.open@ <= self.high@
        &&& self.low@ <= self.close@ <= self.high@
    }

    /// The bar that a non-empty run of ticks makes: opened by the first, closed by
    /// the last, with the extreme prices and the total quantity (held to the range
    /// of `i64`). `None` for no ticks. The bar is always consistent.
    pub fn from_ticks(ticks: &[Tick], period: BarPeriod) -> (r: Option<Bar>)
        ensures
            r is None <==> ticks@.len() == 0,
            r matches Some(b) ==> {
                &&& b.timestamp == ticks@[0].timestamp
                &&& b.open == ticks@[0].price
                &&& b.close == ticks@.last().price
                &&& forall|i: int| 0 <= i < ticks@.len() ==> #[trigger] ticks@[i].price@ <= b.high@
                &&& exists|i: int| 0 <= i < ticks@.len() && #[trigger] ticks@[i].price == b.high
                &&& forall|i: int| 0 <= i < ticks@.len() ==> b.low@ <= #[trigger] ticks@[i].price@
                &&& exists|i: int| 0 <= i < ticks@.len() && #[trigger] ticks@[i].price == b.low
                &&& b.volume@ == clamp_i64(tick_volume(ticks@))
                &&& b.ohlc_consistent()
            },
    {
        let n = ticks.len();
        if n == 0 {
            return None;
        }
        let first = ticks[0];
        let mut high = first.price;
        let mut low = first.price;
        let mut total: i128 = first.quantity.raw() as i128;
        let mut i: usize = 1;
        proof {
            assert(ticks@.take(1).drop_last() =~= ticks@.take(0));
            assert(ticks@.take(0) =~= Seq::<Tick>::empty());
            assert(ticks@.take(1).last() == ticks@[0]);
            reveal_with_fuel(tick_volume, 2);
            assert(tick_volume(ticks@.take(1)) == ticks@[0].quantity@);
        }
        while i < n
            invariant
                1 <= i <= n,
                n == ticks@.len(),
                first == ticks@[0],
                forall|j: int| 0 <= j < i ==> #[trigger] ticks@[j].price@ <= high@,
                exists|j: int| 0 <= j < i && #[trigger] ticks@[j].price == high,
                forall|j: int| 0 <= j < i ==> low@ <= #[trigger] ticks@[j].price@,
                exists|j: int| 0 <= j < i && #[trigger] ticks@[j].price == low,
                total == tick_volume(ticks@.take(i as int)),
                -(i as int) * 0x8000_0000_0000_0000 <= total <= (i as int) * 0x8000_0000_0000_0000,
            decreases n - i,
        {
            let t = ticks[i];
            if t.price.raw() > high.raw() {
                high = t.price;
            }
            if t.price.raw() < low.raw() {
                low = t.price;
            }
            proof {
                assert(ticks@.take(i + 1).drop_last() =~= ticks@.take(i as int));
                assert(i + 1 <= usize::MAX);
            }
            total = total + t.quantity.raw() as i128;
            i += 1;
        }
        proof {
            assert(ticks@.take(n as int) =~= ticks@);
        }
        let bar = Bar {
            timestamp: first.timestamp,
            open: first.price,
            high,
            low,
            close: ticks[n - 1].price,
            volume: Quantity::saturating_from_i128(total),
        };
        proof {
            assert(ticks@[0].price@ <= high@);
            assert(low@ <= ticks@[0].price@);
            assert(ticks@[n - 1].price@ <= high@);
            assert(low@ <= ticks@[n - 1].price@);
        }
        Some(bar)
    }

    /// Checks that the bar is consistent: the high is at least the low, and the
    /// open and the close lie between them.
    pub fn validate_ohlc(&self) -> (r: Result<(), MarketDataError>)
        ensures
            r is Ok <==> self.ohlc_consistent(),
            r matches Err(e) ==> e == (MarketDataError::OhlcInconsistent {
                high: self.high,
                low: self.low,
            }),
    {
        let high = self.high.raw();
        let low = self.low.raw();
        let open = self.open.raw();
        let close = self.close.raw();
        if high < low || open > high || close > high || open < low || close < low {
            return Err(MarketDataError::OhlcInconsistent { high: self.high, low: self.low });
        }
        Ok(())
    }
}

/// The larger of two integers.
pub open spec fn larger(a: int, b: int) -> int {
    if a >= b {
        a
    } else {
        b
    }
}

/// The smaller of two integers.
pub open spec fn smaller(a: int, b: int) -> int {
    if a <= b {
        a
    } else {
        b
    }
}

/// A bar is consistent exactly when its high is the highest and its low the
/// lowest of its four prices: open, high, low and close all lie between low
/// and high. So a bar whose open or close is above its high, or below its
/// low, is rejected by `validate_ohlc`, and any other bar is accepted.
pub proof fn consistent_bar_spans_its_prices(b: Bar)
    ensures
        b.ohlc_consistent() <==> {
            &&& b.high@ == larger(larger(b.open@, b.high@), larger(b.low@, b.close@))
            &&& b.low@ == smaller(smaller(b.open@, b.high@), smaller(b.low@, b.close@))
        },
        b.close@ > b.high@ || b.open@ > b.high@ || b.close@ < b.low@ || b.open@ < b.low@
            ==> !b.ohlc_consistent(),
{
}

} // verus!
