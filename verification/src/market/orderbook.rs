//! Order book snapshots: price levels on the bid and the ask side.

use vstd::prelude::*;

use crate::market::error::MarketDataError;
use crate::market::side::Side;
use crate::types::{clamp_i64, Price, Quantity, Timestamp};

verus! {

/// One price level of an order book.
#[derive(Debug, Clone, Copy, PartialEq, Eq, Hash)]
pub struct OrderBookLevel {
    /// Price of the level.
    pub price: Price,
    /// Quantity resting at that price.
    pub quantity: Quantity,
}

impl OrderBookLevel {
    /// A level from its price and quantity.
    pub fn new(price: Price, quantity: Quantity) -> (r: OrderBookLevel)
        ensures
            r.price == price,
            r.quantity == quantity,
    {
        OrderBookLevel { price, quantity }
    }
}

/// `a` may stand before `b` on one side of the book: at a higher or equal price
/// on the bid side (`desc`), at a lower or equal price on the ask side.
pub open spec fn level_precedes(a: OrderBookLevel, b: OrderBookLevel, desc: bool) -> bool {
    if desc {
        a.price@ >= b.price@
    } else {
        a.price@ <= b.price@
    }
}

/// Every level may stand before every later one.
pub open spec fn levels_ordered(s: Seq<OrderBookLevel>, desc: bool) -> bool {
    forall|i: int, j: int|
        0 <= i < j < s.len() ==> level_precedes(#[trigger] s[i], #[trigger] s[j], desc)
}

/// Position `i` is the first at which a level is followed by one that may not
/// follow it.
pub open spec fn first_break(s: Seq<OrderBookLevel>, desc: bool, i: int) -> bool {
    &&& 0 <= i && i + 1 < s.len()
    &&& !level_precedes(s[i], s[i + 1], desc)
    &&& forall|k: int| 0 <= k < i ==> level_precedes(#[trigger] s[k], s[k + 1], desc)
}

/// The test "has a positive quantity".
pub open spec fn is_live() -> spec_fn(OrderBookLevel) -> bool {
    |l: OrderBookLevel| l.quantity@ > 0
}

/// The test "is at price `q`".
pub open spec fn at_price(q: int) -> spec_fn(OrderBookLevel) -> bool {
    |l: OrderBookLevel| l.price@ == q
}

/// The levels with a positive quantity, in order.
pub open spec fn live_levels(s: Seq<OrderBookLevel>) -> Seq<OrderBookLevel> {
    s.filter(is_live())
}

/// The levels at price `q`, in order.
pub open spec fn levels_at(s: Seq<OrderBookLevel>, q: int) -> Seq<OrderBookLevel> {
    s.filter(at_price(q))
}

/// `out` holds the levels of `input` that have a positive quantity, ordered by
/// price for one side of the book; levels at one price keep their order.
pub open spec fn arranged(out: Seq<OrderBookLevel>, input: Seq<OrderBookLevel>, desc: bool) -> bool {
    &&& levels_ordered(out, desc)
    &&& forall|q: int| #[trigger] levels_at(out, q) == levels_at(live_levels(input), q)
}

/// Sum of the quantities of levels.
pub open spec fn level_volume(s: Seq<OrderBookLevel>) -> int
    decreases s.len(),
{
    if s.len() == 0 {
        0
    } else {
        level_volume(s.drop_last()) + s.last().quantity@
    }
}

/// Neighbouring levels in order make a whole side in order.
proof fn lemma_chain_ordered(s: Seq<OrderBookLevel>, desc: bool)
    requires
        forall|k: int| 0 <= k && k + 1 < s.len() ==> level_precedes(#[trigger] s[k], s[k + 1], desc),
    ensures
        levels_ordered(s, desc),
    decreases s.len(),
{
    if s.len() > 1 {
        let t = s.drop_last();
        assert forall|k: int| 0 <= k && k + 1 < t.len() implies level_precedes(
            #[trigger] t[k],
            t[k + 1],
            desc,
        ) by {
            assert(t[k] == s[k]);
            assert(t[k + 1] == s[k + 1]);
        }
        lemma_chain_ordered(t, desc);
        assert forall|i: int, j: int| 0 <= i < j < s.len() implies level_precedes(
            #[trigger] s[i],
            #[trigger] s[j],
            desc,
        ) by {
            if j < s.len() - 1 {
                assert(t[i] == s[i]);
                assert(t[j] == s[j]);
            } else {
                assert(level_precedes(s[j - 1], s[j], desc));
                if i < j - 1 {
                    assert(t[i] == s[i]);
                    assert(t[j - 1] == s[j - 1]);
                    assert(level_precedes(t[i], t[j - 1], desc));
                }
            }
        }
    }
}

/// A filter that no element passes is empty.
proof fn lemma_filter_none(b: Seq<OrderBookLevel>, f: spec_fn(OrderBookLevel) -> bool)
    requires
        forall|k: int| 0 <= k < b.len() ==> !f(#[trigger] b[k]),
    ensures
        b.filter(f).len() == 0,
{
    broadcast use vstd::seq_lib::group_filter_ensures;

    if b.filter(f).len() > 0 {
        let e = b.filter(f)[0];
        assert(f(e));
        assert(b.filter(f).contains(e));
        b.lemma_filter_contains_rev(f, e);
        let k = choose|k: int| 0 <= k < b.len() && b[k] == e;
        assert(!f(b[k]));
    }
}

/// Inserting a level at its place keeps a side in order, and adds it at the end
/// of the levels at its price.
proof fn lemma_insert_level(r: Seq<OrderBookLevel>, p: int, x: OrderBookLevel, desc: bool)
    requires
        levels_ordered(r, desc),
        0 <= p <= r.len(),
        forall|k: int| 0 <= k < p ==> level_precedes(#[trigger] r[k], x, desc),
        forall|k: int| p <= k < r.len() ==> !level_precedes(#[trigger] r[k], x, desc),
    ensures
        levels_ordered(r.insert(p, x), desc),
        forall|q: int|
            #[trigger] levels_at(r.insert(p, x), q) == (if x.price@ == q {
                levels_at(r, q).push(x)
            } else {
                levels_at(r, q)
            }),
{
    let o = r.insert(p, x);
    assert forall|i: int, j: int| 0 <= i < j < o.len() implies level_precedes(
        #[trigger] o[i],
        #[trigger] o[j],
        desc,
    ) by {
        if j < p {
            assert(o[i] == r[i]);
            assert(o[j] == r[j]);
        } else if j == p {
            assert(o[i] == r[i]);
        } else {
            assert(o[j] == r[j - 1]);
            assert(!level_precedes(r[j - 1], x, desc));
            if i < p {
                assert(o[i] == r[i]);
                assert(level_precedes(r[i], r[j - 1], desc));
            } else if i > p {
                assert(o[i] == r[i - 1]);
                assert(level_precedes(r[i - 1], r[j - 1], desc));
            }
        }
    }
    let a = r.take(p);
    let b = r.skip(p);
    assert(r =~= a + b);
    assert(o =~= (a + seq![x]) + b);
    assert forall|q: int|
        #[trigger] levels_at(o, q) == (if x.price@ == q {
            levels_at(r, q).push(x)
        } else {
            levels_at(r, q)
        }) by {
        let f = at_price(q);
        Seq::filter_distributes_over_add(a + seq![x], b, f);
        Seq::filter_distributes_over_add(a, seq![x], f);
        Seq::filter_distributes_over_add(a, b, f);
        assert(seq![x] =~= Seq::<OrderBookLevel>::empty().push(x));
        Seq::<OrderBookLevel>::empty().lemma_filter_push(x, f);
        assert(Seq::<OrderBookLevel>::empty().filter(f).len() == 0) by {
            lemma_filter_none(Seq::<OrderBookLevel>::empty(), f);
        }
        assert(Seq::<OrderBookLevel>::empty().filter(f) =~= Seq::<OrderBookLevel>::empty());
        if x.price@ == q {
            assert forall|k: int| 0 <= k < b.len() implies !f(#[trigger] b[k]) by {
                assert(b[k] == r[p + k]);
            }
            lemma_filter_none(b, f);
            assert(b.filter(f) =~= Seq::<OrderBookLevel>::empty());
            assert(levels_at(o, q) =~= levels_at(r, q).push(x));
        } else {
            assert(levels_at(o, q) =~= levels_at(r, q));
        }
    }
}

/// Whether `a` may stand before `b` on one side of the book.
fn precedes(a: &OrderBookLevel, b: &OrderBookLevel, desc: bool) -> (r: bool)
    ensures
        r == level_precedes(*a, *b, desc),
{
    if desc {
        a.price.raw() >= b.price.raw()
    } else {
        a.price.raw() <= b.price.raw()
    }
}

/// Position after the levels of an ordered side that may stand before `x`.
fn insertion_point(out: &Vec<OrderBookLevel>, x: &OrderBookLevel, desc: bool) -> (p: usize)
    requires
        levels_ordered(out@, desc),
    ensures
        p <= out@.len(),
        forall|k: int| 0 <= k < p ==> level_precedes(#[trigger] out@[k], *x, desc),
        forall|k: int| p <= k < out@.len() ==> !level_precedes(#[trigger] out@[k], *x, desc),
{
    let mut p: usize = 0;
    while p < out.len()
        invariant
            p <= out@.len(),
            levels_ordered(out@, desc),
            forall|k: int| 0 <= k < p ==> level_precedes(#[trigger] out@[k], *x, desc),
        decreases out@.len() - p,
    {
        if !precedes(&out[p], x, desc) {
            proof {
                assert forall|k: int| p <= k < out@.len() implies !level_precedes(
                    #[trigger] out@[k],
                    *x,
                    desc,
                ) by {
                    if k > p {
                        assert(level_precedes(out@[p as int], out@[k], desc));
                    }
                }
            }
            return p;
        }
        p += 1;
    }
    p
}

/// The levels with a positive quantity, ordered for one side of the book; levels
/// at one price keep their order (a stable sort).
fn arrange(levels: Vec<OrderBookLevel>, desc: bool) -> (out: Vec<OrderBookLevel>)
    ensures
        arranged(out@, levels@, desc),
{
    let mut out: Vec<OrderBookLevel> = Vec::new();
    let n = levels.len();
    let mut i: usize = 0;
    proof {
        assert(levels@.take(0) =~= Seq::<OrderBookLevel>::empty());
        lemma_filter_none(Seq::<OrderBookLevel>::empty(), is_live());
        assert forall|q: int| #[trigger]
            levels_at(out@, q) == levels_at(live_levels(levels@.take(0)), q) by {
            lemma_filter_none(Seq::<OrderBookLevel>::empty(), at_price(q));
            assert(levels_at(out@, q) =~= Seq::<OrderBookLevel>::empty());
            assert(live_levels(levels@.take(0)) =~= Seq::<OrderBookLevel>::empty());
        }
    }
    while i < n
        invariant
            i <= n,
            n == levels@.len(),
            levels_ordered(out@, desc),
            forall|q: int| #[trigger]
                levels_at(out@, q) == levels_at(live_levels(levels@.take(i as int)), q),
        decreases n - i,
    {
        let x = levels[i];
        let ghost before = out@;
        let ghost prefix = levels@.take(i as int);
        proof {
            assert(levels@.take(i + 1) =~= prefix.push(x));
            prefix.lemma_filter_push(x, is_live());
        }
        if x.quantity.raw() > 0 {
            let p = insertion_point(&out, &x, desc);
            out.insert(p, x);
            proof {
                lemma_insert_level(before, p as int, x, desc);
                assert forall|q: int| #[trigger]
                    levels_at(out@, q) == levels_at(live_levels(levels@.take(i + 1)), q) by {
                    assert(levels_at(before, q) == levels_at(live_levels(prefix), q));
                    live_levels(prefix).lemma_filter_push(x, at_price(q));
                }
            }
        } else {
            proof {
                assert(live_levels(levels@.take(i + 1)) == live_levels(prefix));
            }
        }
        i += 1;
    }
    proof {
        assert(levels@.take(n as int) =~= levels@);
    }
    out
}

/// Sum of the quantities of the first `count` levels, held to the range of `i64`.
fn volume_of(levels: &Vec<OrderBookLevel>, count: usize) -> (r: Quantity)
    requires
        count <= levels@.len(),
    ensures
        r@ == clamp_i64(level_volume(levels@.take(count as int))),
{
    let mut total: i128 = 0;
    let mut i: usize = 0;
    proof {
        assert(levels@.take(0) =~= Seq::<OrderBookLevel>::empty());
    }
    while i < count
        invariant
            i <= count,
            count <= levels@.len(),
            total == level_volume(levels@.take(i as int)),
            -(i as int) * 0x8000_0000_0000_0000 <= total <= (i as int) * 0x8000_0000_0000_0000,
        decreases count - i,
    {
        proof {
            assert(levels@.take(i + 1).drop_last() =~= levels@.take(i as int));
        }
        total = total + levels[i].quantity.raw() as i128;
        i += 1;
    }
    Quantity::saturating_from_i128(total)
}

/// A copy of a run of levels.
fn copy_levels(levels: &Vec<OrderBookLevel>) -> (r: Vec<OrderBookLevel>)
    ensures
        r@ == levels@,
{
    let mut out: Vec<OrderBookLevel> = Vec::new();
    let mut i: usize = 0;
    while i < levels.len()
        invariant
            i <= levels@.len(),
            out@ == levels@.take(i as int),
        decreases levels@.len() - i,
    {
        out.push(levels[i]);
        assert(levels@.take(i + 1) =~= levels@.take(i as int).push(levels@[i as int]));
        i += 1;
    }
    assert(levels@.take(levels@.len() as int) =~= levels@);
    out
}

/// A snapshot of an order book.
#[derive(Debug, PartialEq, Eq)]
pub struct OrderBookSnapshot {
    /// Time of the snapshot.
    pub timestamp: Timestamp,
    /// Bid levels, best (highest) price first.
    pub bids: Vec<OrderBookLevel>,
    /// Ask levels, best (lowest) price first.
    pub asks: Vec<OrderBookLevel>,
}

impl Clone for OrderBookSnapshot {
    /// A copy with the same time and levels.
    fn clone(&self) -> (r: OrderBookSnapshot)
        ensures
            r.timestamp == self.timestamp,
            r.bids@ == self.bids@,
            r.asks@ == self.asks@,
    {
        OrderBookSnapshot {
            timestamp: self.timestamp,
            bids: copy_levels(&self.bids),
            asks: copy_levels(&self.asks),
        }
    }
}

impl OrderBookSnapshot {
    /// Bids by descending price and asks by ascending price.
    pub open spec fn is_sorted(self) -> bool {
        levels_ordered(self.bids@, true) && levels_ordered(self.asks@, false)
    }

    /// A book with no levels.
    pub fn empty(timestamp: Timestamp) -> (r: OrderBookSnapshot)
        ensures
            r.timestamp == timestamp,
            r.bids@.len() == 0,
            r.asks@.len() == 0,
    {
        OrderBookSnapshot { timestamp, bids: Vec::new(), asks: Vec::new() }
    }

    /// The best (first) bid level, if any.
    pub fn best_bid(&self) -> (r: Option<&OrderBookLevel>)
        ensures
            match r {
                Some(l) => self.bids@.len() > 0 && *l == self.bids@[0],
                None => self.bids@.len() == 0,
            },
    {
        if self.bids.len() > 0 {
            Some(&self.bids[0])
        } else {
            None
        }
    }

    /// The best (first) ask level, if any.
    pub fn best_ask(&self) -> (r: Option<&OrderBookLevel>)
        ensures
            match r {
                Some(l) => self.asks@.len() > 0 && *l == self.asks@[0],
                None => self.asks@.len() == 0,
            },
    {
        if self.asks.len() > 0 {
            Some(&self.asks[0])
        } else {
            None
        }
    }

    /// Midpoint of the best bid and the best ask, rounded to the nearest raw
    /// unit (a half unit up, as prices are never negative); `None` when a
    /// side is empty.
    pub fn mid_price(&self) -> (r: Option<Price>)
        ensures
            r is Some <==> self.bids@.len() > 0 && self.asks@.len() > 0,
            r matches Some(m) ==> m@ == (self.bids@[0].price@ + self.asks@[0].price@ + 1) / 2,
    {
        if self.bids.len() == 0 || self.asks.len() == 0 {
            return None;
        }
        let bid = self.bids[0].price.raw() as i128;
        let ask = self.asks[0].price.raw() as i128;
        let mid = (bid + ask + 1) / 2;
        Some(Price::from_raw(mid as i64))
    }

    /// Total quantity of the first `levels` levels of one side (all of them when
    /// there are fewer), held to the range of `i64`.
    pub fn depth(&self, side: Side, levels: usize) -> (r: Quantity)
        ensures
            ({
                let book = if side == Side::Buy { self.bids@ } else { self.asks@ };
                let count = if levels < book.len() { levels as int } else { book.len() as int };
                r@ == clamp_i64(level_volume(book.take(count)))
            }),
    {
        let book = match side {
            Side::Buy => &self.bids,
            Side::Sell => &self.asks,
        };
        let count = if levels < book.len() { levels } else { book.len() };
        volume_of(book, count)
    }

    /// A book from level-2 data: levels with no positive quantity are dropped,
    /// bids are ordered by descending price and asks by ascending price, and
    /// levels at one price keep their order.
    pub fn from_l2(
        timestamp: Timestamp,
        bids: Vec<OrderBookLevel>,
        asks: Vec<OrderBookLevel>,
    ) -> (r: OrderBookSnapshot)
        ensures
            r.timestamp == timestamp,
            arranged(r.bids@, bids@, true),
            arranged(r.asks@, asks@, false),
    {
        let bids = arrange(bids, true);
        let asks = arrange(asks, false);
        OrderBookSnapshot { timestamp, bids, asks }
    }

    /// First position at which a side is out of order, if any.
    fn first_unsorted(levels: &Vec<OrderBookLevel>, desc: bool) -> (r: Option<usize>)
        ensures
            match r {
                None => levels_ordered(levels@, desc),
                Some(i) => first_break(levels@, desc, i as int),
            },
    {
        let n = levels.len();
        if n < 2 {
            proof {
                lemma_chain_ordered(levels@, desc);
            }
            return None;
        }
        let mut i: usize = 0;
        while i < n - 1
            invariant
                n == levels@.len(),
                n >= 2,
                i <= n - 1,
                forall|k: int| 0 <= k < i ==> level_precedes(#[trigger] levels@[k], levels@[k + 1], desc),
            decreases n - i,
        {
            if !precedes(&levels[i], &levels[i + 1], desc) {
                return Some(i);
            }
            i += 1;
        }
        proof {
            lemma_chain_ordered(levels@, desc);
        }
        None
    }

    /// Checks that bids come by descending and asks by ascending price. The
    /// error names the first pair of neighbouring levels out of order, bids
    /// checked before asks.
    pub fn validate_sorting(&self) -> (r: Result<(), MarketDataError>)
        ensures
            r is Ok <==> self.is_sorted(),
            r matches Err(e) ==> if levels_ordered(self.bids@, true) {
                exists|i: int|
                    #![trigger first_break(self.asks@, false, i)]
                    first_break(self.asks@, false, i) && e == (MarketDataError::OrderBookUnsorted {
                        bid_level: self.asks@[i],
                        ask_level: self.asks@[i + 1],
                    })
            } else {
                exists|i: int|
                    #![trigger first_break(self.bids@, true, i)]
                    first_break(self.bids@, true, i) && e == (MarketDataError::OrderBookUnsorted {
                        bid_level: self.bids@[i],
                        ask_level: self.bids@[i + 1],
                    })
            },
    {
        let nb = self.bids.len();
        let na = self.asks.len();
        match Self::first_unsorted(&self.bids, true) {
            Some(i) => {
                proof {
                    assert(first_break(self.bids@, true, i as int));
                    assert(i + 1 < nb);
                    assert(!level_precedes(self.bids@[i as int], self.bids@[i + 1], true));
                }
                return Err(
                    MarketDataError::OrderBookUnsorted {
                        bid_level: self.bids[i],
                        ask_level: self.bids[i + 1],
                    },
                );
            },
            None => {},
        }
        match Self::first_unsorted(&self.asks, false) {
            Some(i) => {
                proof {
                    assert(first_break(self.asks@, false, i as int));
                    assert(i + 1 < na);
                    assert(!level_precedes(self.asks@[i as int], self.asks@[i + 1], false));
                }
                Err(
                    MarketDataError::OrderBookUnsorted {
                        bid_level: self.asks[i],
                        ask_level: self.asks[i + 1],
                    },
                )
            },
            None => Ok(()),
        }
    }
}

/// A book built from level-2 data passes the order check: `from_l2` orders both
/// sides, so `validate_sorting` accepts what it returns.
pub proof fn from_l2_books_are_sorted(
    timestamp: Timestamp,
    bids: Seq<OrderBookLevel>,
    asks: Seq<OrderBookLevel>,
    book: OrderBookSnapshot,
)
    requires
        book.timestamp == timestamp,
        arranged(book.bids@, bids, true),
        arranged(book.asks@, asks, false),
    ensures
        book.is_sorted(),
        forall|i: int| !first_break(book.bids@, true, i) && !first_break(book.asks@, false, i),
{
    assert forall|i: int| !first_break(book.bids@, true, i) && !first_break(book.asks@, false, i) by {
        if 0 <= i && i + 1 < book.bids@.len() {
            assert(level_precedes(book.bids@[i], book.bids@[i + 1], true));
        }
        if 0 <= i && i + 1 < book.asks@.len() {
            assert(level_precedes(book.asks@[i], book.asks@[i + 1], false));
        }
    }
}

} // verus!
