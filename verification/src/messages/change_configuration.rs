use vstd::prelude::*;

use crate::action::{OcppRequest, OcppResponse};
use crate::enums::ConfigurationStatus;

verus! {

#[derive(Debug, Clone, PartialEq)]
pub struct ChangeConfigurationRequest {
    pub key: String,
    pub value: String,
}

#[derive(Debug, Clone, PartialEq)]
pub struct ChangeConfigurationResponse {
    pub status: ConfigurationStatus,
}

impl OcppRequest for ChangeConfigurationRequest {
    type Response = ChangeConfigurationResponse;

    const ACTION: &'static str = "ChangeConfiguration";
}

impl OcppResponse for ChangeConfigurationResponse {}

} // verus!
