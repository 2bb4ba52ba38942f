use vstd::prelude::*;

use crate::action::{OcppRequest, OcppResponse};
use crate::enums::StopReason;
use crate::messages::authorize::IdTagInfo;
use crate::messages::meter_values::MeterValue;
use crate::messages::Timestamp;

verus! {

#[derive(Debug, Clone, PartialEq)]
pub struct StopTransactionRequest {
    pub id_tag: Option<String>,
    pub meter_stop: i32,
    pub timestamp: Timestamp,
    pub transaction_id: i32,
    pub reason: Option<StopReason>,
    pub transaction_data: Option<Vec<MeterValue>>,
}

#[derive(Debug, Clone, Default, PartialEq)]
pub struct StopTransactionResponse {
    pub id_tag_info: Option<IdTagInfo>,
}

impl OcppRequest for StopTransactionRequest {
    type Response = StopTransactionResponse;

    const ACTION: &'static str = "StopTransaction";
}

impl OcppResponse for StopTransactionResponse {}

} // verus!
