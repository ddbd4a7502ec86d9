//! Errors of the event layer.

use vstd::prelude::*;

use crate::text::{decimal, push_decimal, push_signed, push_str, signed_decimal};

verus! {

/// Errors raised by event checks.
#[derive(Debug, Clone, PartialEq, Eq)]
pub enum EventError {
    /// A sequence number did not grow.
    SequenceNotMonotonic {
        /// The new number.
        current: u64,
        /// The number before it.
        previous: u64,
    },
    /// A timestamp did not grow.
    TimestampNotMonotonic {
        /// The new timestamp, in nanoseconds.
        current_ns: i64,
        /// The timestamp before it, in nanoseconds.
        previous_ns: i64,
    },
    /// An invalid kind of event.
    InvalidEventType(String),
    /// A subscriber could not be registered.
    HandlerRegistration(String),
}

/// Text of an event error.
pub open spec fn event_message(e: EventError) -> Seq<char> {
    match e {
        EventError::SequenceNotMonotonic { current, previous } => "事件序列号不递增：当前 "@
            + decimal(current as nat) + " <= 前一个 "@ + decimal(previous as nat),
        EventError::TimestampNotMonotonic { current_ns, previous_ns } => "事件时间戳不递增：当前 "@
            + signed_decimal(current_ns as int) + "ns <= 前一个 "@ + signed_decimal(
            previous_ns as int,
        ) + "ns"@,
        EventError::InvalidEventType(s) => "无效事件类型："@ + s@,
        EventError::HandlerRegistration(s) => "事件处理器注册失败："@ + s@,
    }
}

impl EventError {
    /// Text of the error.
    pub fn message(&self) -> (r: String)
        ensures
            r@ == event_message(*self),
    {
        let mut out = String::new();
        match self {
            EventError::SequenceNotMonotonic { current, previous } => {
                push_str(&mut out, "事件序列号不递增：当前 ");
                push_decimal(&mut out, *current as u128);
                push_str(&mut out, " <= 前一个 ");
                push_decimal(&mut out, *previous as u128);
            },
            EventError::TimestampNotMonotonic { current_ns, previous_ns } => {
                push_str(&mut out, "事件时间戳不递增：当前 ");
                push_signed(&mut out, *current_ns);
                push_str(&mut out, "ns <= 前一个 ");
                push_signed(&mut out, *previous_ns);
                push_str(&mut out, "ns");
            },
            EventError::InvalidEventType(s) => {
                push_str(&mut out, "无效事件类型：");
                push_str(&mut out, s.as_str());
            },
            EventError::HandlerRegistration(s) => {
                push_str(&mut out, "事件处理器注册失败：");
                push_str(&mut out, s.as_str());
            },
        }
        assert(out@ =~= event_message(*self));
        out
    }
}

/// Result type of the event layer.
pub type EventResult<T> = Result<T, EventError>;

} // verus!
