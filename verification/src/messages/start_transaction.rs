use vstd::prelude::*;

use crate::action::{OcppRequest, OcppResponse};
use crate::messages::authorize::IdTagInfo;
use crate::messages::Timestamp;

verus! {

#[derive(Debug, Clone, PartialEq)]
pub struct StartTransactionRequest {
    pub connector_id: i32,
    pub id_tag: String,
    pub meter_start: i32,
    pub reservation_id: Option<i32>,
    pub timestamp: Timestamp,
}

#[derive(Debug, Clone, PartialEq)]
pub struct StartTransactionResponse {
    pub id_tag_info: IdTagInfo,
    pub transaction_id: i32,
}

impl OcppRequest for StartTransactionRequest {
    type Response = StartTransactionResponse;

    const ACTION: &'static str = "StartTransaction";
}

impl OcppResponse for StartTransactionResponse {}

} // verus!
