//! Errors of the matching engine.

use vstd::prelude::*;

use crate::market::Side;
use crate::text::{decimal, fixed8, push_decimal, push_fixed8, push_str};
use crate::types::{Price, Quantity};

verus! {

/// Errors raised by the matching engine.
#[derive(Debug, Clone, PartialEq)]
pub enum MatchingError {
    /// No such order.
    OrderNotFound {
        /// The order.
        order_id: u64,
    },
    /// A modification that cannot be made.
    InvalidModification {
        /// Why.
        reason: String,
    },
    /// The order is already completely filled.
    OrderAlreadyFilled,
    /// A price that is not positive.
    InvalidPrice {
        /// The price.
        price: Price,
    },
    /// A quantity that is not positive.
    InvalidQuantity {
        /// The quantity.
        quantity: Quantity,
    },
    /// The side of the book asked for is empty.
    OrderBookEmpty {
        /// The side.
        side: Side,
    },
    /// A fill-or-kill order cannot be filled completely.
    FokPartialFill {
        /// Quantity needed.
        required: Quantity,
        /// Quantity available.
        available: Quantity,
    },
    /// The engine does not support this order type.
    UnsupportedOrderType(String),
}

/// Result type of the matching engine.
pub type MatchingResult<T> = Result<T, MatchingError>;

/// Text of a matching error; prices and quantities in fixed point with eight decimals.
pub open spec fn matching_message(e: MatchingError) -> Seq<char> {
    match e {
        MatchingError::OrderNotFound { order_id } => "订单未找到: "@ + decimal(order_id as nat),
        MatchingError::InvalidModification { reason } => "无效修改: "@ + reason@,
        MatchingError::OrderAlreadyFilled => "订单已完全成交"@,
        MatchingError::InvalidPrice { price } => "价格必须大于零: "@ + fixed8(price@),
        MatchingError::InvalidQuantity { quantity } => "数量必须大于零: "@ + fixed8(quantity@),
        MatchingError::OrderBookEmpty { side } => "订单簿为空: "@ + (if side == Side::Buy {
            "Buy"@
        } else {
            "Sell"@
        }),
        MatchingError::FokPartialFill { required, available } => "FOK 订单无法全部成交: 需要 "@
            + fixed8(required@) + ", 可用 "@ + fixed8(available@),
        MatchingError::UnsupportedOrderType(s) => "撮合引擎 L1 不支持订单类型: "@ + s@,
    }
}

impl MatchingError {
    /// Text of the error.
    pub fn message(&self) -> (r: String)
        ensures
            r@ == matching_message(*self),
    {
        let mut out = String::new();
        match self {
            MatchingError::OrderNotFound { order_id } => {
                push_str(&mut out, "订单未找到: ");
                push_decimal(&mut out, *order_id as u128);
            },
            MatchingError::InvalidModification { reason } => {
                push_str(&mut out, "无效修改: ");
                push_str(&mut out, reason.as_str());
            },
            MatchingError::OrderAlreadyFilled => push_str(&mut out, "订单已完全成交"),
            MatchingError::InvalidPrice { price } => {
                push_str(&mut out, "价格必须大于零: ");
                push_fixed8(&mut out, price.raw());
            },
            MatchingError::InvalidQuantity { quantity } => {
                push_str(&mut out, "数量必须大于零: ");
                push_fixed8(&mut out, quantity.raw());
            },
            MatchingError::OrderBookEmpty { side } => {
                push_str(&mut out, "订单簿为空: ");
                match side {
                    Side::Buy => push_str(&mut out, "Buy"),
                    Side::Sell => push_str(&mut out, "Sell"),
                }
            },
            MatchingError::FokPartialFill { required, available } => {
                push_str(&mut out, "FOK 订单无法全部成交: 需要 ");
                push_fixed8(&mut out, required.raw());
                push_str(&mut out, ", 可用 ");
                push_fixed8(&mut out, available.raw());
            },
            MatchingError::UnsupportedOrderType(s) => {
                push_str(&mut out, "撮合引擎 L1 不支持订单类型: ");
                push_str(&mut out, s.as_str());
            },
        }
        assert(out@ =~= matching_message(*self));
        out
    }
}

} // verus!
