//! Errors of the event queue.

use vstd::prelude::*;

use crate::text::push_str;

verus! {

/// Errors raised by the event queue.
#[derive(Debug, Clone, Copy, PartialEq, Eq, Structural)]
pub enum EventQueueError {
    /// The queue holds no event.
    QueueEmpty,
}

impl EventQueueError {
    /// Text of the error.
    pub fn message(&self) -> (r: String)
        ensures
            r@ == "事件队列为空"@,
    {
        let mut s = String::new();
        push_str(&mut s, "事件队列为空");
        s
    }
}

} // verus!
