use vstd::prelude::*;

use crate::action::{OcppRequest, OcppResponse};
use crate::enums::RemoteStartStopStatus;
use crate::json::JsonValue;

verus! {

/// `chargingProfile` is carried verbatim so that it round-trips cleanly.
#[derive(Debug, Clone, PartialEq)]
pub struct RemoteStartTransactionRequest {
    pub connector_id: Option<i32>,
    pub id_tag: String,
    pub charging_profile: Option<JsonValue>,
}

#[derive(Debug, Clone, PartialEq)]
pub struct RemoteStartTransactionResponse {
    pub status: RemoteStartStopStatus,
}

impl OcppRequest for RemoteStartTransactionRequest {
    type Response = RemoteStartTransactionResponse;

    const ACTION: &'static str = "RemoteStartTransaction";
}

impl OcppResponse for RemoteStartTransactionResponse {}

} // verus!
