//! System events.

use vstd::prelude::*;

use crate::types::Timestamp;

verus! {

/// What happened in the system.
#[derive(Debug, PartialEq, Eq)]
#[non_exhaustive]
pub enum SystemAction {
    /// A heartbeat.
    Heartbeat,
    /// A session began.
    SessionStart {
        /// The session.
        session_id: String,
    },
    /// A session ended.
    SessionEnd {
        /// The session.
        session_id: String,
    },
    /// An error.
    Error {
        /// What went wrong.
        message: String,
    },
    /// A key and a value.
    Custom {
        /// The key.
        key: String,
        /// The value.
        value: String,
    },
}

impl Clone for SystemAction {
    /// An equal copy.
    fn clone(&self) -> (r: SystemAction)
        ensures
            r == *self,
    {
        match self {
            SystemAction::Heartbeat => SystemAction::Heartbeat,
            SystemAction::SessionStart { session_id } => SystemAction::SessionStart {
                session_id: session_id.clone(),
            },
            SystemAction::SessionEnd { session_id } => SystemAction::SessionEnd {
                session_id: session_id.clone(),
            },
            SystemAction::Error { message } => SystemAction::Error { message: message.clone() },
            SystemAction::Custom { key, value } => SystemAction::Custom {
                key: key.clone(),
                value: value.clone(),
            },
        }
    }
}

/// A system event.
#[derive(Debug, PartialEq, Eq)]
pub struct SystemEvent {
    /// Sequence number.
    pub seq: u64,
    /// When it happened.
    pub timestamp: Timestamp,
    /// What happened.
    pub action: SystemAction,
}

impl Clone for SystemEvent {
    /// An equal copy.
    fn clone(&self) -> (r: SystemEvent)
        ensures
            r == *self,
    {
        SystemEvent { seq: self.seq, timestamp: self.timestamp, action: self.action.clone() }
    }
}

impl SystemEvent {
    /// An event from its parts.
    pub fn new(seq: u64, timestamp: Timestamp, action: SystemAction) -> (r: SystemEvent)
        ensures
            r.seq == seq,
            r.timestamp == timestamp,
            r.action == action,
    {
        SystemEvent { seq, timestamp, action }
    }
}

} // verus!
