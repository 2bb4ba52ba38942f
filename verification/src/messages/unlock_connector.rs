use vstd::prelude::*;

use crate::action::{OcppRequest, OcppResponse};
use crate::enums::UnlockStatus;

verus! {

#[derive(Debug, Clone, PartialEq)]
pub struct UnlockConnectorRequest {
    pub connector_id: i32,
}

#[derive(Debug, Clone, PartialEq)]
pub struct UnlockConnectorResponse {
    pub status: UnlockStatus,
}

impl OcppRequest for UnlockConnectorRequest {
    type Response = UnlockConnectorResponse;

    const ACTION: &'static str = "UnlockConnector";
}

impl OcppResponse for UnlockConnectorResponse {}

} // verus!
