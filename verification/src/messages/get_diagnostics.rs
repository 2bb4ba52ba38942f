use vstd::prelude::*;

use crate::action::{OcppRequest, OcppResponse};
use crate::messages::Timestamp;

verus! {

/// CSMS → CP: request the charge point to upload diagnostics to a given URL.
/// Per OCPP 1.6 §5.10, CP responds immediately with the filename it will upload
/// (empty string if it cannot produce diagnostics). Progress is then reported
/// asynchronously via `DiagnosticsStatusNotification`.
#[derive(Debug, Clone, PartialEq)]
pub struct GetDiagnosticsRequest {
    /// URL the CP should upload the diagnostics file to (FTP/FTPS/HTTP/HTTPS).
    pub location: String,
    /// Number of retry attempts (optional).
    pub retries: Option<i32>,
    /// Interval in seconds between retries (optional).
    pub retry_interval: Option<i32>,
    /// Only include diagnostics from this timestamp onwards (optional).
    pub start_time: Option<Timestamp>,
    /// Only include diagnostics up to this timestamp (optional).
    pub stop_time: Option<Timestamp>,
}

/// Response to GetDiagnostics.
/// `file_name` is the name of the diagnostics file the CP will upload,
/// or absent/empty if no diagnostics are available.
#[derive(Debug, Clone, Default, PartialEq)]
pub struct GetDiagnosticsResponse {
    pub file_name: Option<String>,
}

impl OcppRequest for GetDiagnosticsRequest {
    type Response = GetDiagnosticsResponse;

    const ACTION: &'static str = "GetDiagnostics";
}

impl OcppResponse for GetDiagnosticsResponse {}

} // verus!
