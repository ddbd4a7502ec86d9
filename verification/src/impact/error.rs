//! Errors of market impact models.

use vstd::prelude::*;

use crate::text::{decimal, push_decimal, push_str};

verus! {

/// Errors raised by market impact models.
#[derive(Debug, Clone, PartialEq, Eq)]
pub enum ImpactModelError {
    /// The order book is empty.
    EmptyOrderBook,
    /// An invalid parameter.
    InvalidParameter(String),
    /// The book is not deep enough.
    InsufficientDepth {
        /// Levels needed.
        required: usize,
        /// Levels there are.
        available: usize,
    },
    /// The computation overflowed.
    ComputationOverflow,
}

/// Result type of market impact models.
pub type ImpactModelResult<T> = Result<T, ImpactModelError>;

/// Text of an impact model error.
pub open spec fn impact_message(e: ImpactModelError) -> Seq<char> {
    match e {
        ImpactModelError::EmptyOrderBook => "订单簿为空，无法计算冲击"@,
        ImpactModelError::InvalidParameter(s) => "无效参数："@ + s@,
        ImpactModelError::InsufficientDepth { required, available } => "深度不足：需要 "@ + decimal(
            required as nat,
        ) + " 层，实际 "@ + decimal(available as nat) + " 层"@,
        ImpactModelError::ComputationOverflow => "计算溢出"@,
    }
}

impl ImpactModelError {
    /// Whether retrying could help: never, these are all logic errors.
    pub fn is_retryable(&self) -> (r: bool)
        ensures
            !r,
    {
        match self {
            ImpactModelError::EmptyOrderBook => false,
            ImpactModelError::InvalidParameter(_) => false,
            ImpactModelError::InsufficientDepth { .. } => false,
            ImpactModelError::ComputationOverflow => false,
        }
    }

    /// Text of the error.
    pub fn message(&self) -> (r: String)
        ensures
            r@ == impact_message(*self),
    {
        let mut s = String::new();
        match self {
            ImpactModelError::EmptyOrderBook => push_str(&mut s, "订单簿为空，无法计算冲击"),
            ImpactModelError::InvalidParameter(p) => {
                push_str(&mut s, "无效参数：");
                push_str(&mut s, p.as_str());
            },
            ImpactModelError::InsufficientDepth { required, available } => {
                push_str(&mut s, "深度不足：需要 ");
                push_decimal(&mut s, *required as u128);
                push_str(&mut s, " 层，实际 ");
                push_decimal(&mut s, *available as u128);
                push_str(&mut s, " 层");
            },
            ImpactModelError::ComputationOverflow => push_str(&mut s, "计算溢出"),
        }
        assert(s@ =~= impact_message(*self));
        s
    }
}

} // verus!
