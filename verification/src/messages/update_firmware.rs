use vstd::prelude::*;

use crate::action::{OcppRequest, OcppResponse};
use crate::messages::Timestamp;

verus! {

/// CSMS → CP: instruct the charge point to download and install firmware.
/// Per OCPP 1.6 §5.16, the CP returns an empty response immediately;
/// progress is reported via `FirmwareStatusNotification`.
#[derive(Debug, Clone, PartialEq)]
pub struct UpdateFirmwareRequest {
    /// URL of the firmware to download.
    pub location: String,
    /// Date/time after which the CP may start downloading.
    pub retrieve_date: Timestamp,
    /// Number of retry attempts (optional).
    pub retries: Option<i32>,
    /// Interval in seconds between retry attempts (optional).
    pub retry_interval: Option<i32>,
}

/// Response to UpdateFirmware — always empty `{}` per spec.
#[derive(Debug, Clone, Default, PartialEq)]
pub struct UpdateFirmwareResponse {}

impl OcppRequest for UpdateFirmwareRequest {
    type Response = UpdateFirmwareResponse;

    const ACTION: &'static str = "UpdateFirmware";
}

impl OcppResponse for UpdateFirmwareResponse {}

} // verus!
