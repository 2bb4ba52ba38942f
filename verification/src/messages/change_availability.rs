use vstd::prelude::*;

use crate::action::{OcppRequest, OcppResponse};
use crate::enums::{AvailabilityStatus, AvailabilityType};

verus! {

#[derive(Debug, Clone, PartialEq)]
pub struct ChangeAvailabilityRequest {
    pub connector_id: i32,
    /// The wire name of this field is `type`.
    pub availability_type: AvailabilityType,
}

#[derive(Debug, Clone, PartialEq)]
pub struct ChangeAvailabilityResponse {
    pub status: AvailabilityStatus,
}

impl OcppRequest for ChangeAvailabilityRequest {
    type Response = ChangeAvailabilityResponse;

    const ACTION: &'static str = "ChangeAvailability";
}

impl OcppResponse for ChangeAvailabilityResponse {}

} // verus!
