use vstd::prelude::*;

use crate::action::{OcppRequest, OcppResponse};
use crate::enums::ClearCacheStatus;

verus! {

/// CSMS → CP: request the charge point to clear its local authorization cache.
/// Per OCPP 1.6 §5.4, CP returns Accepted if it supports the cache and cleared it,
/// or Rejected otherwise.
#[derive(Debug, Clone, Default, PartialEq)]
pub struct ClearCacheRequest {}

#[derive(Debug, Clone, PartialEq)]
pub struct ClearCacheResponse {
    pub status: ClearCacheStatus,
}

impl OcppRequest for ClearCacheRequest {
    type Response = ClearCacheResponse;

    const ACTION: &'static str = "ClearCache";
}

impl OcppResponse for ClearCacheResponse {}

} // verus!
