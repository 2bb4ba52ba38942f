use vstd::prelude::*;

use crate::action::{OcppRequest, OcppResponse};
use crate::enums::RemoteStartStopStatus;

verus! {

#[derive(Debug, Clone, PartialEq)]
pub struct RemoteStopTransactionRequest {
    pub transaction_id: i32,
}

#[derive(Debug, Clone, PartialEq)]
pub struct RemoteStopTransactionResponse {
    pub status: RemoteStartStopStatus,
}

impl OcppRequest for RemoteStopTransactionRequest {
    type Response = RemoteStopTransactionResponse;

    const ACTION: &'static str = "RemoteStopTransaction";
}

impl OcppResponse for RemoteStopTransactionResponse {}

} // verus!
