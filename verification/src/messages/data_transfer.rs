use vstd::prelude::*;

use crate::action::{OcppRequest, OcppResponse};
use crate::enums::DataTransferStatus;

verus! {

/// Vendor-specific data exchange, in either direction.
#[derive(Debug, Clone, PartialEq)]
pub struct DataTransferRequest {
    pub vendor_id: String,
    pub message_id: Option<String>,
    pub data: Option<String>,
}

#[derive(Debug, Clone, PartialEq)]
pub struct DataTransferResponse {
    pub status: DataTransferStatus,
    pub data: Option<String>,
}

impl OcppRequest for DataTransferRequest {
    type Response = DataTransferResponse;

    const ACTION: &'static str = "DataTransfer";
}

impl OcppResponse for DataTransferResponse {}

} // verus!
