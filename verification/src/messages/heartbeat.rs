use vstd::prelude::*;

use crate::action::{OcppRequest, OcppResponse};
use crate::messages::Timestamp;

verus! {

#[derive(Debug, Clone, Default, PartialEq)]
pub struct HeartbeatRequest {}

#[derive(Debug, Clone, PartialEq)]
pub struct HeartbeatResponse {
    pub current_time: Timestamp,
}

impl OcppRequest for HeartbeatRequest {
    type Response = HeartbeatResponse;

    const ACTION: &'static str = "Heartbeat";
}

impl OcppResponse for HeartbeatResponse {}

} // verus!
