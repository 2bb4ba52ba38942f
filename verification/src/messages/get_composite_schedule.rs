use vstd::prelude::*;

use crate::action::{OcppRequest, OcppResponse};
use crate::enums::{ChargingRateUnit, GetCompositeScheduleStatus};
use crate::messages::set_charging_profile::ChargingSchedule;
use crate::json::JsonNumber;
use crate::messages::Timestamp;

verus! {

/// CSMS → CP: request the composite charging schedule for a connector (OCPP 1.6 §7.5).
#[derive(Debug, Clone, PartialEq)]
pub struct GetCompositeScheduleRequest {
    pub connector_id: i32,
    /// Duration (seconds) of the schedule to compute.
    pub duration: i32,
    /// Preferred rate unit for the response (optional).
    pub charging_rate_unit: Option<ChargingRateUnit>,
}

/// `L` is the type of the schedule's rate limits.
#[derive(Debug, Clone, PartialEq)]
pub struct GetCompositeScheduleResponse<L> {
    pub status: GetCompositeScheduleStatus,
    pub connector_id: Option<i32>,
    pub schedule_start: Option<Timestamp>,
    pub charging_schedule: Option<ChargingSchedule<L>>,
}

impl OcppRequest for GetCompositeScheduleRequest {
    /// On the wire, rate limits are JSON numbers.
    type Response = GetCompositeScheduleResponse<JsonNumber>;

    const ACTION: &'static str = "GetCompositeSchedule";
}

impl<L> OcppResponse for GetCompositeScheduleResponse<L> {}

} // verus!
