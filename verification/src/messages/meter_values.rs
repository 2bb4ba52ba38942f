use vstd::prelude::*;

use crate::action::{OcppRequest, OcppResponse};
use crate::enums::{Location, Measurand, Phase, ReadingContext, UnitOfMeasure, ValueFormat};
use crate::messages::Timestamp;

verus! {

#[derive(Debug, Clone, PartialEq)]
pub struct SampledValue {
    pub value: String,
    pub context: Option<ReadingContext>,
    pub format: Option<ValueFormat>,
    pub measurand: Option<Measurand>,
    pub phase: Option<Phase>,
    pub location: Option<Location>,
    pub unit: Option<UnitOfMeasure>,
}

#[derive(Debug, Clone, PartialEq)]
pub struct MeterValue {
    pub timestamp: Timestamp,
    pub sampled_value: Vec<SampledValue>,
}

#[derive(Debug, Clone, PartialEq)]
pub struct MeterValuesRequest {
    pub connector_id: i32,
    pub transaction_id: Option<i32>,
    pub meter_value: Vec<MeterValue>,
}

#[derive(Debug, Clone, Default, PartialEq)]
pub struct MeterValuesResponse {}

impl OcppRequest for MeterValuesRequest {
    type Response = MeterValuesResponse;

    const ACTION: &'static str = "MeterValues";
}

impl OcppResponse for MeterValuesResponse {}

} // verus!
