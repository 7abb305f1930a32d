//! Messages of the earlier WebSocket protocol.

use vstd::prelude::*;

verus! {

/// A message of the earlier WebSocket protocol.
#[derive(Debug, Clone, PartialEq, Eq)]
pub enum DataMessage {
    Reset(ResetMessage),
    Timestamp(TimestampMessage),
    Setup(SetupMessage),
    SubscribeSetup(SubscribeSetup),
    UnSubscribeSetup(UnSubscribeSetup),
}

/// A time stamp, with the duration it closes if any.
#[derive(Debug, Clone, Copy, PartialEq, Eq)]
pub struct TimestampMessage {
    pub timestamp: u64,
    pub duration: Option<u64>,
}

/// Request to receive setup updates.
#[derive(Debug, Clone, Copy, PartialEq, Eq)]
pub struct SubscribeSetup {}

/// Request to stop receiving setup updates.
#[derive(Debug, Clone, Copy, PartialEq, Eq)]
pub struct UnSubscribeSetup {}

/// Whether the sensor is connected.
#[derive(Debug, Clone, Copy, PartialEq, Eq)]
pub struct SetupMessage {
    pub connected: bool,
}

/// Reset, optionally of one lap.
#[derive(Debug, Clone, PartialEq, Eq)]
pub struct ResetMessage {
    pub id: Option<String>,
}

} // verus!
