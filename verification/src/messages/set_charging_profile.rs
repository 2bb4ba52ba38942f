use vstd::prelude::*;

use crate::action::{OcppRequest, OcppResponse};
use crate::enums::{
    ChargingProfileKind, ChargingProfilePurpose, ChargingProfileStatus, ChargingRateUnit, RecurrencyKind,
};
use crate::messages::Timestamp;

verus! {

/// A single time-interval entry in a charging schedule. `L` is the type of
/// the power/current limit.
#[derive(Debug, Clone, PartialEq)]
pub struct ChargingSchedulePeriod<L> {
    /// Seconds from the start of the schedule.
    pub start_period: i32,
    /// Power/current limit for this period.
    pub limit: L,
    /// Optional number of phases (1 or 3).
    pub number_phases: Option<i32>,
}

/// A time-based schedule defining power/current limits.
#[derive(Debug, Clone, PartialEq)]
pub struct ChargingSchedule<L> {
    /// Optional total duration (seconds). Absent = unlimited.
    pub duration: Option<i32>,
    /// Start of the schedule (absolute). Required for Absolute profiles.
    pub start_schedule: Option<Timestamp>,
    pub charging_rate_unit: ChargingRateUnit,
    pub charging_schedule_period: Vec<ChargingSchedulePeriod<L>>,
    /// Minimum charging rate (A or W). Optional.
    pub min_charging_rate: Option<L>,
}

/// A charging profile as defined in OCPP 1.6 §7.
#[derive(Debug, Clone, PartialEq)]
pub struct ChargingProfile<L> {
    pub charging_profile_id: i32,
    pub transaction_id: Option<i32>,
    pub stack_level: i32,
    pub charging_profile_purpose: ChargingProfilePurpose,
    pub charging_profile_kind: ChargingProfileKind,
    pub recurrency_kind: Option<RecurrencyKind>,
    pub valid_from: Option<Timestamp>,
    pub valid_to: Option<Timestamp>,
    pub charging_schedule: ChargingSchedule<L>,
}

/// CSMS → CP: install a charging profile on a connector (OCPP 1.6 §7.3).
#[derive(Debug, Clone, PartialEq)]
pub struct SetChargingProfileRequest<L> {
    /// 0 = charge point as a whole, >0 = specific connector.
    pub connector_id: i32,
    pub cs_charging_profiles: ChargingProfile<L>,
}

#[derive(Debug, Clone, PartialEq)]
pub struct SetChargingProfileResponse {
    pub status: ChargingProfileStatus,
}

impl<L> OcppRequest for SetChargingProfileRequest<L> {
    type Response = SetChargingProfileResponse;

    const ACTION: &'static str = "SetChargingProfile";
}

impl OcppResponse for SetChargingProfileResponse {}

} // verus!
