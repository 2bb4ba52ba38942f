use vstd::prelude::*;

use crate::action::{OcppRequest, OcppResponse};
use crate::enums::DiagnosticsStatus;

verus! {

/// CP → CSMS: report current diagnostics upload status.
#[derive(Debug, Clone, PartialEq)]
pub struct DiagnosticsStatusNotificationRequest {
    pub status: DiagnosticsStatus,
}

/// Response to DiagnosticsStatusNotification — always empty `{}` per spec.
#[derive(Debug, Clone, Default, PartialEq)]
pub struct DiagnosticsStatusNotificationResponse {}

impl OcppRequest for DiagnosticsStatusNotificationRequest {
    type Response = DiagnosticsStatusNotificationResponse;

    const ACTION: &'static str = "DiagnosticsStatusNotification";
}

impl OcppResponse for DiagnosticsStatusNotificationResponse {}

} // verus!
