use vstd::prelude::*;

use crate::action::{OcppRequest, OcppResponse};

verus! {

#[derive(Debug, Clone, PartialEq)]
pub struct GetConfigurationRequest {
    pub key: Option<Vec<String>>,
}

#[derive(Debug, Clone, PartialEq)]
pub struct ConfigurationKey {
    pub key: String,
    pub readonly: bool,
    pub value: Option<String>,
}

#[derive(Debug, Clone, Default, PartialEq)]
pub struct GetConfigurationResponse {
    pub configuration_key: Option<Vec<ConfigurationKey>>,
    pub unknown_key: Option<Vec<String>>,
}

impl OcppRequest for GetConfigurationRequest {
    type Response = GetConfigurationResponse;

    const ACTION: &'static str = "GetConfiguration";
}

impl OcppResponse for GetConfigurationResponse {}

} // verus!
