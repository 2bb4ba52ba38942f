//! The handle the adapter holds on an internal battery: what can go wrong
//! when talking to it.

use vstd::prelude::*;

verus! {

broadcast use vstd::string::group_string_axioms;

/// Why a device could not be reached.
#[derive(Debug, Clone, PartialEq)]
pub enum DeviceError {
    /// The device's stream has ended.
    Closed,
    /// The backend (MQTT, gRPC) reported an error.
    Backend(String),
}

/// The message of a device error.
pub open spec fn device_error_message(e: DeviceError) -> Seq<char> {
    match e {
        DeviceError::Closed => "device closed"@,
        DeviceError::Backend(detail) => "device backend error: "@ + detail@,
    }
}

impl DeviceError {
    /// The message of this error, as it is logged.
    pub fn message(&self) -> (r: String)
        ensures
            r@ == device_error_message(*self),
    {
        match self {
            DeviceError::Closed => "device closed".to_string(),
            DeviceError::Backend(detail) => {
                let mut m = "device backend error: ".to_string();
                m.append(detail.as_str());
                m
            },
        }
    }
}

} // verus!
