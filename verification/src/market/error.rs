//! Errors of market data checks.

use vstd::prelude::*;

use crate::market::orderbook::OrderBookLevel;
use crate::text::{fixed8, push_char, push_fixed8, push_str};
use crate::types::Price;

verus! {

/// Errors raised by market data checks.
#[derive(Debug, Clone)]
pub enum MarketDataError {
    /// A bar whose open, high, low and close do not fit together.
    OhlcInconsistent {
        /// The bar's high.
        high: Price,
        /// The bar's low.
        low: Price,
    },
    /// An invalid price.
    InvalidPrice(String),
    /// An invalid quantity.
    InvalidQuantity(String),
    /// The order book is empty, so the named value cannot be computed.
    OrderBookEmpty(String),
    /// Two neighbouring levels of one side of the book are out of order.
    OrderBookUnsorted {
        /// The level that comes first.
        bid_level: OrderBookLevel,
        /// The level that follows it.
        ask_level: OrderBookLevel,
    },
}

/// A level as `(price, quantity)`, both in fixed point with eight decimals.
pub open spec fn level_text(l: OrderBookLevel) -> Seq<char> {
    seq!['('] + fixed8(l.price@) + ", "@ + fixed8(l.quantity@) + seq![')']
}

/// Text of a market data error.
pub open spec fn market_message(e: MarketDataError) -> Seq<char> {
    match e {
        MarketDataError::OhlcInconsistent { high, low } => "OHLC 不一致：high("@ + fixed8(high@)
            + ") < low("@ + fixed8(low@) + seq![')'],
        MarketDataError::InvalidPrice(s) => "无效价格："@ + s@,
        MarketDataError::InvalidQuantity(s) => "无效数量："@ + s@,
        MarketDataError::OrderBookEmpty(s) => "订单簿为空，无法计算 "@ + s@,
        MarketDataError::OrderBookUnsorted { bid_level, ask_level } => "订单簿未排序："@
            + level_text(bid_level) + " > "@ + level_text(ask_level),
    }
}

/// Appends a level as `(price, quantity)`.
fn push_level(out: &mut String, l: &OrderBookLevel)
    ensures
        final(out)@ == old(out)@ + level_text(*l),
{
    push_char(out, '(');
    push_fixed8(out, l.price.raw());
    push_str(out, ", ");
    push_fixed8(out, l.quantity.raw());
    push_char(out, ')');
    assert(final(out)@ =~= old(out)@ + level_text(*l));
}

impl MarketDataError {
    /// Text of the error; prices and quantities in fixed point with eight decimals.
    pub fn message(&self) -> (r: String)
        ensures
            r@ == market_message(*self),
    {
        let mut out = String::new();
        match self {
            MarketDataError::OhlcInconsistent { high, low } => {
                push_str(&mut out, "OHLC 不一致：high(");
                push_fixed8(&mut out, high.raw());
                push_str(&mut out, ") < low(");
                push_fixed8(&mut out, low.raw());
                push_char(&mut out, ')');
            },
            MarketDataError::InvalidPrice(s) => {
                push_str(&mut out, "无效价格：");
                push_str(&mut out, s.as_str());
            },
            MarketDataError::InvalidQuantity(s) => {
                push_str(&mut out, "无效数量：");
                push_str(&mut out, s.as_str());
            },
            MarketDataError::OrderBookEmpty(s) => {
                push_str(&mut out, "订单簿为空，无法计算 ");
                push_str(&mut out, s.as_str());
            },
            MarketDataError::OrderBookUnsorted { bid_level, ask_level } => {
                push_str(&mut out, "订单簿未排序：");
                push_level(&mut out, bid_level);
                push_str(&mut out, " > ");
                push_level(&mut out, ask_level);
            },
        }
        assert(out@ =~= market_message(*self));
        out
    }
}

/// Result type of market data checks.
pub type MarketDataResult<T> = Result<T, MarketDataError>;

} // verus!
