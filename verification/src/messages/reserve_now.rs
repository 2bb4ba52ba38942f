use vstd::prelude::*;

use crate::action::{OcppRequest, OcppResponse};
use crate::enums::ReservationStatus;
use crate::messages::Timestamp;

verus! {

/// CSMS → CP: reserve a connector for a specific idTag (OCPP 1.6 §5.13.2).
#[derive(Debug, Clone, PartialEq)]
pub struct ReserveNowRequest {
    /// 0 = any available connector, >0 = specific connector.
    pub connector_id: i32,
    /// Date/time when reservation expires.
    pub expiry_date: Timestamp,
    /// The idTag for which the connector is reserved.
    pub id_tag: String,
    /// Optional parent idTag.
    pub parent_id_tag: Option<String>,
    /// Unique reservation ID.
    pub reservation_id: i32,
}

#[derive(Debug, Clone, PartialEq)]
pub struct ReserveNowResponse {
    pub status: ReservationStatus,
}

impl OcppRequest for ReserveNowRequest {
    type Response = ReserveNowResponse;

    const ACTION: &'static str = "ReserveNow";
}

impl OcppResponse for ReserveNowResponse {}

} // verus!
