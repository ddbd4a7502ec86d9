//! Errors of latency models.

use vstd::prelude::*;

use crate::latency::delay::{Delay, PathType};
use crate::text::{decimal, push_decimal, push_str};

verus! {

/// Errors raised by latency models.
#[derive(Debug, Clone, PartialEq, Eq)]
pub enum LatencyModelError {
    /// An invalid parameter.
    InvalidParameter(String),
    /// No delay is configured for the path.
    PathNotConfigured(PathType),
    /// The maximum delay is below the minimum.
    InvalidRange {
        /// The minimum.
        min: Delay,
        /// The maximum.
        max: Delay,
    },
    /// The queue length is above its cap.
    QueueOverflow(usize, usize),
}

/// Result type of latency models.
pub type LatencyModelResult<T> = Result<T, LatencyModelError>;

/// Name of a path as it is written in messages.
pub open spec fn path_label(p: PathType) -> Seq<char> {
    match p {
        PathType::MarketData => "MarketData"@,
        PathType::OrderSubmit => "OrderSubmit"@,
        PathType::OrderCancel => "OrderCancel"@,
        PathType::AccountQuery => "AccountQuery"@,
        PathType::Heartbeat => "Heartbeat"@,
    }
}

/// Text of a latency model error.
pub open spec fn latency_message(e: LatencyModelError) -> Seq<char> {
    match e {
        LatencyModelError::InvalidParameter(s) => "无效参数："@ + s@,
        LatencyModelError::PathNotConfigured(p) => "路径未配置："@ + path_label(p),
        LatencyModelError::InvalidRange { min, max } => "最大延迟小于最小延迟：min="@ + decimal(
            min@ as nat,
        ) + "ns, max="@ + decimal(max@ as nat) + "ns"@,
        LatencyModelError::QueueOverflow(len, cap) => "队列长度超出上限："@ + decimal(len as nat)
            + " > "@ + decimal(cap as nat),
    }
}

impl LatencyModelError {
    /// Text of the error.
    pub fn message(&self) -> (r: String)
        ensures
            r@ == latency_message(*self),
    {
        let mut s = String::new();
        match self {
            LatencyModelError::InvalidParameter(p) => {
                push_str(&mut s, "无效参数：");
                push_str(&mut s, p.as_str());
            },
            LatencyModelError::PathNotConfigured(p) => {
                push_str(&mut s, "路径未配置：");
                match p {
                    PathType::MarketData => push_str(&mut s, "MarketData"),
                    PathType::OrderSubmit => push_str(&mut s, "OrderSubmit"),
                    PathType::OrderCancel => push_str(&mut s, "OrderCancel"),
                    PathType::AccountQuery => push_str(&mut s, "AccountQuery"),
                    PathType::Heartbeat => push_str(&mut s, "Heartbeat"),
                }
            },
            LatencyModelError::InvalidRange { min, max } => {
                push_str(&mut s, "最大延迟小于最小延迟：min=");
                push_decimal(&mut s, min.as_nanos());
                push_str(&mut s, "ns, max=");
                push_decimal(&mut s, max.as_nanos());
                push_str(&mut s, "ns");
            },
            LatencyModelError::QueueOverflow(len, cap) => {
                push_str(&mut s, "队列长度超出上限：");
                push_decimal(&mut s, *len as u128);
                push_str(&mut s, " > ");
                push_decimal(&mut s, *cap as u128);
            },
        }
        assert(s@ =~= latency_message(*self));
        s
    }
}

} // verus!
