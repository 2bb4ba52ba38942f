use vstd::prelude::*;

use crate::action::{OcppRequest, OcppResponse};
use crate::enums::RegistrationStatus;
use crate::messages::Timestamp;

verus! {

#[derive(Debug, Clone, Default, PartialEq)]
pub struct BootNotificationRequest {
    pub charge_point_vendor: String,
    pub charge_point_model: String,
    pub charge_point_serial_number: Option<String>,
    pub charge_box_serial_number: Option<String>,
    pub firmware_version: Option<String>,
    pub iccid: Option<String>,
    pub imsi: Option<String>,
    pub meter_type: Option<String>,
    pub meter_serial_number: Option<String>,
}

#[derive(Debug, Clone, PartialEq)]
pub struct BootNotificationResponse {
    pub current_time: Timestamp,
    /// Heartbeat interval in seconds.
    pub interval: i32,
    pub status: RegistrationStatus,
}

impl OcppRequest for BootNotificationRequest {
    type Response = BootNotificationResponse;

    const ACTION: &'static str = "BootNotification";
}

impl OcppResponse for BootNotificationResponse {}

} // verus!
