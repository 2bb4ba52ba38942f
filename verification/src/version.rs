//! OCPP versions. The protocol layer is generic over the version so that
//! further versions can be added beside 1.6.

use vstd::prelude::*;

verus! {

/// Marker trait for an OCPP version.
pub trait OcppVersion {
    /// WebSocket subprotocol header (`Sec-WebSocket-Protocol`).
    fn subprotocol() -> &'static str;
}

/// OCPP 1.6 / OCPP-J 1.6.
pub struct Ocpp16;

impl OcppVersion for Ocpp16 {
    fn subprotocol() -> (r: &'static str)
        ensures
            r@ == "ocpp1.6"@,
    {
        "ocpp1.6"
    }
}

} // verus!
