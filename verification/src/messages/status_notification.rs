use vstd::prelude::*;

use crate::action::{OcppRequest, OcppResponse};
use crate::enums::{ChargePointErrorCode, ChargePointStatus};
use crate::messages::Timestamp;

verus! {

#[derive(Debug, Clone, PartialEq)]
pub struct StatusNotificationRequest {
    pub connector_id: i32,
    pub error_code: ChargePointErrorCode,
    pub info: Option<String>,
    pub status: ChargePointStatus,
    pub timestamp: Option<Timestamp>,
    pub vendor_id: Option<String>,
    pub vendor_error_code: Option<String>,
}

#[derive(Debug, Clone, Default, PartialEq)]
pub struct StatusNotificationResponse {}

impl OcppRequest for StatusNotificationRequest {
    type Response = StatusNotificationResponse;

    const ACTION: &'static str = "StatusNotification";
}

impl OcppResponse for StatusNotificationResponse {}

} // verus!
