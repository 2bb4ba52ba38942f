use vstd::prelude::*;

use crate::action::{OcppRequest, OcppResponse};
use crate::enums::{ResetStatus, ResetType};

verus! {

#[derive(Debug, Clone, PartialEq)]
pub struct ResetRequest {
    pub reset_type: ResetType,
}

#[derive(Debug, Clone, PartialEq)]
pub struct ResetResponse {
    pub status: ResetStatus,
}

impl OcppRequest for ResetRequest {
    type Response = ResetResponse;

    const ACTION: &'static str = "Reset";
}

impl OcppResponse for ResetResponse {}

} // verus!
