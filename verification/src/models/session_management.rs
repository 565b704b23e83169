//! Heartbeats: switching them on with an interval, and off.

use crate::request::{Request, VoidRequest};
use vstd::prelude::*;

verus! {

/// What a heartbeat notification asks of the client.
#[derive(Clone, Debug, PartialEq, Eq, Structural)]
pub enum HeartbeatType {
    /// Nothing: it only shows that the connection is alive.
    Heartbeat,
    /// An answer, by a test call.
    TestRequest,
}

/// The parameters of a heartbeat notification.
#[derive(Clone, Debug, PartialEq, Eq, Structural)]
pub struct HeartbeatParams {
    pub type_: HeartbeatType,
}

/// Asks for heartbeats at an interval of seconds.
#[derive(Clone, Debug, PartialEq, Eq, Structural)]
pub struct SetHeartbeatRequest {
    pub interval: u64,
}

impl SetHeartbeatRequest {
    /// The request for heartbeats every `interval` seconds.
    pub fn with_interval(interval: u64) -> (r: SetHeartbeatRequest)
        ensures
            r.interval == interval,
    {
        SetHeartbeatRequest { interval }
    }
}

/// The answer to `SetHeartbeatRequest`.
#[derive(Clone, Copy, Debug, PartialEq, Eq, Structural)]
pub enum SetHeartbeatResponse {
    Okay,
}

impl Request for SetHeartbeatRequest {
    const METHOD: &'static str = "public/set_heartbeat";

    type Response = SetHeartbeatResponse;
}

/// Asks for heartbeats to stop. It has no parameters.
#[derive(Clone, Debug, PartialEq, Eq, Structural)]
pub struct DisableHeartbeatRequest;

/// The answer to `DisableHeartbeatRequest`.
#[derive(Clone, Copy, Debug, PartialEq, Eq, Structural)]
pub enum DisableHeartbeatResponse {
    Okay,
}

impl Request for DisableHeartbeatRequest {
    const METHOD: &'static str = "public/disable_heartbeat";

    type Response = DisableHeartbeatResponse;
}

impl VoidRequest for DisableHeartbeatRequest {
    #[inline]
    fn empty(&self) -> (b: bool)
        ensures
            b,
    {
        true
    }
}

} // verus!
