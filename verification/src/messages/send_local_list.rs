use vstd::prelude::*;

use crate::action::{OcppRequest, OcppResponse};
use crate::enums::{UpdateStatus, UpdateType};
use crate::messages::authorize::IdTagInfo;

verus! {

/// A single authorization entry in the local list (OCPP 1.6 §5.12).
#[derive(Debug, Clone, PartialEq)]
pub struct AuthorizationData {
    pub id_tag: String,
    /// Present when adding/updating in a `Full` or `Differential` update.
    /// Absent when removing an entry in a `Differential` update.
    pub id_tag_info: Option<IdTagInfo>,
}

/// CSMS → CP: push a local authorization list to the charge point (OCPP 1.6 §5.12.4).
#[derive(Debug, Clone, PartialEq)]
pub struct SendLocalListRequest {
    /// Version number the CP should store after applying this list.
    pub list_version: i32,
    /// How to apply the list: replace entirely (`Full`) or merge (`Differential`).
    pub update_type: UpdateType,
    /// The list entries. The OCPP schema allows this field to be omitted.
    pub local_authorization_list: Vec<AuthorizationData>,
}

/// Response to SendLocalList.
#[derive(Debug, Clone, PartialEq)]
pub struct SendLocalListResponse {
    pub status: UpdateStatus,
}

impl OcppRequest for SendLocalListRequest {
    type Response = SendLocalListResponse;

    const ACTION: &'static str = "SendLocalList";
}

impl OcppResponse for SendLocalListResponse {}

} // verus!
