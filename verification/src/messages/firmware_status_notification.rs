use vstd::prelude::*;

use crate::action::{OcppRequest, OcppResponse};
use crate::enums::FirmwareStatus;

verus! {

/// CP → CSMS: report current firmware update status.
#[derive(Debug, Clone, PartialEq)]
pub struct FirmwareStatusNotificationRequest {
    pub status: FirmwareStatus,
}

/// Response to FirmwareStatusNotification — always empty `{}` per spec.
#[derive(Debug, Clone, Default, PartialEq)]
pub struct FirmwareStatusNotificationResponse {}

impl OcppRequest for FirmwareStatusNotificationRequest {
    type Response = FirmwareStatusNotificationResponse;

    const ACTION: &'static str = "FirmwareStatusNotification";
}

impl OcppResponse for FirmwareStatusNotificationResponse {}

} // verus!
