use vstd::prelude::*;

use crate::action::{OcppRequest, OcppResponse};
use crate::enums::CancelReservationStatus;

verus! {

/// CSMS → CP: cancel an existing reservation (OCPP 1.6 §5.13.3).
#[derive(Debug, Clone, PartialEq)]
pub struct CancelReservationRequest {
    pub reservation_id: i32,
}

#[derive(Debug, Clone, PartialEq)]
pub struct CancelReservationResponse {
    pub status: CancelReservationStatus,
}

impl OcppRequest for CancelReservationRequest {
    type Response = CancelReservationResponse;

    const ACTION: &'static str = "CancelReservation";
}

impl OcppResponse for CancelReservationResponse {}

} // verus!
