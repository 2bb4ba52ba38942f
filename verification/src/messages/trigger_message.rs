use vstd::prelude::*;

use crate::action::{OcppRequest, OcppResponse};
use crate::enums::{MessageTrigger, TriggerMessageStatus};

verus! {

#[derive(Debug, Clone, PartialEq)]
pub struct TriggerMessageRequest {
    pub requested_message: MessageTrigger,
    pub connector_id: Option<i32>,
}

#[derive(Debug, Clone, PartialEq)]
pub struct TriggerMessageResponse {
    pub status: TriggerMessageStatus,
}

impl OcppRequest for TriggerMessageRequest {
    type Response = TriggerMessageResponse;

    const ACTION: &'static str = "TriggerMessage";
}

impl OcppResponse for TriggerMessageResponse {}

} // verus!
