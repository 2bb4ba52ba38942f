//! Connecting to the central system: the boot handshake and the replay of
//! calls that were queued while offline.

use vstd::prelude::*;

use crate::enums::{ChargePointErrorCode, ChargePointStatus, RegistrationStatus};
use crate::messages::{BootNotificationRequest, BootNotificationResponse, StatusNotificationRequest, Timestamp};
use crate::store::state::BootInfo;

verus! {

broadcast use vstd::string::group_string_axioms;

/// The name of a registration status, as it is kept in the boot record.
pub open spec fn registration_status_name(s: RegistrationStatus) -> Seq<char> {
    match s {
        RegistrationStatus::Accepted => "Accepted"@,
        RegistrationStatus::Pending => "Pending"@,
        RegistrationStatus::Rejected => "Rejected"@,
    }
}

/// The heartbeat interval in seconds that an accepted boot sets: the one the
/// central system gave, and at least one second.
pub open spec fn heartbeat_interval_spec(interval: i32) -> u64 {
    if interval < 1 {
        1
    } else {
        interval as u64
    }
}

/// How many calls of the replay reached the central system before the first
/// one that failed.
pub open spec fn delivered_prefix(delivered: Seq<bool>) -> nat
    decreases delivered.len(),
{
    if delivered.len() == 0 || !delivered[0] {
        0
    } else {
        1 + delivered_prefix(delivered.drop_first())
    }
}

/// Boot and offline-queue handling for one charge point.
pub struct ConnectivityManager {
    cp_id: String,
    vendor: String,
    model: String,
}

impl ConnectivityManager {
    pub closed spec fn cp_id_spec(&self) -> Seq<char> {
        self.cp_id@
    }

    pub closed spec fn vendor_spec(&self) -> Seq<char> {
        self.vendor@
    }

    pub closed spec fn model_spec(&self) -> Seq<char> {
        self.model@
    }

    pub fn new(cp_id: String, vendor: String, model: String) -> (r: Self)
        ensures
            r.cp_id_spec() == cp_id@,
            r.vendor_spec() == vendor@,
            r.model_spec() == model@,
    {
        ConnectivityManager { cp_id, vendor, model }
    }

    /// The charge point this manager serves.
    pub fn cp_id(&self) -> (r: &str)
        ensures
            r@ == self.cp_id_spec(),
    {
        self.cp_id.as_str()
    }

    /// The BootNotification sent on every connection: vendor and model, nothing else.
    pub fn boot_request(&self) -> (r: BootNotificationRequest)
        ensures
            r.charge_point_vendor@ == self.vendor_spec(),
            r.charge_point_model@ == self.model_spec(),
            r.charge_point_serial_number is None,
            r.charge_box_serial_number is None,
            r.firmware_version is None,
            r.iccid is None,
            r.imsi is None,
            r.meter_type is None,
            r.meter_serial_number is None,
    {
        BootNotificationRequest {
            charge_point_vendor: self.vendor.clone(),
            charge_point_model: self.model.clone(),
            charge_point_serial_number: None,
            charge_box_serial_number: None,
            firmware_version: None,
            iccid: None,
            imsi: None,
            meter_type: None,
            meter_serial_number: None,
        }
    }

    /// The boot record kept for the reply to a BootNotification received at `now`.
    pub fn boot_info(resp: &BootNotificationResponse, now: Timestamp) -> (r: BootInfo)
        ensures
            r.status@ == registration_status_name(resp.status),
            r.interval == resp.interval,
            r.last_boot == now,
    {
        let status = match resp.status {
            RegistrationStatus::Accepted => "Accepted".to_string(),
            RegistrationStatus::Pending => "Pending".to_string(),
            RegistrationStatus::Rejected => "Rejected".to_string(),
        };
        BootInfo { status, interval: resp.interval, last_boot: now }
    }

    /// The outcome of the boot handshake: the heartbeat interval when the
    /// charge point was accepted, otherwise the status it got (a `Pending` or
    /// `Rejected` registration is not handled further).
    pub fn heartbeat_interval(resp: &BootNotificationResponse) -> (r: Result<u64, RegistrationStatus>)
        ensures
            resp.status == RegistrationStatus::Accepted ==> r == Ok::<u64, RegistrationStatus>(
                heartbeat_interval_spec(resp.interval),
            ),
            resp.status != RegistrationStatus::Accepted ==> r == Err::<u64, RegistrationStatus>(resp.status),
    {
        match resp.status {
            RegistrationStatus::Accepted => {
                let interval = if resp.interval < 1 {
                    1
                } else {
                    resp.interval
                };
                Ok(interval as u64)
            },
            other => Err(other),
        }
    }

    /// The status notification that follows an accepted boot: the whole
    /// charge point (connector 0) is available (mandatory in OCPP 1.6).
    pub fn boot_status_notification(now: Timestamp) -> (r: StatusNotificationRequest)
        ensures
            r.connector_id == 0,
            r.error_code == ChargePointErrorCode::NoError,
            r.status == ChargePointStatus::Available,
            r.info matches Some(i) && i@ == "Init after boot"@,
            r.timestamp == Some(now),
            r.vendor_id is None,
            r.vendor_error_code is None,
    {
        StatusNotificationRequest {
            connector_id: 0,
            error_code: ChargePointErrorCode::NoError,
            info: Some("Init after boot".to_string()),
            status: ChargePointStatus::Available,
            timestamp: Some(now),
            vendor_id: None,
            vendor_error_code: None,
        }
    }

    /// The queued calls to acknowledge after a replay: the replay resends the
    /// queue in order and halts at the first failure, so exactly the calls
    /// before that failure are acknowledged. `delivered[i]` tells whether
    /// the `i`-th resent call succeeded.
    pub fn replay_acks(ids: &Vec<u64>, delivered: &Vec<bool>) -> (r: Vec<u64>)
        ensures
            r@ == ids@.take(vstd::math::min(ids@.len() as int, delivered_prefix(delivered@) as int)),
    {
        let mut out: Vec<u64> = Vec::new();
        let mut i: usize = 0;
        assert(delivered@.skip(0) =~= delivered@);
        while i < ids.len() && i < delivered.len() && delivered[i]
            invariant
                i <= ids@.len(),
                i <= delivered@.len(),
                out@ == ids@.take(i as int),
                delivered_prefix(delivered@) == i + delivered_prefix(delivered@.skip(i as int)),
            decreases ids@.len() - i,
        {
            proof {
                assert(delivered@.skip(i as int).drop_first() =~= delivered@.skip(i + 1));
            }
            out.push(ids[i]);
            i = i + 1;
            proof {
                assert(out@ =~= ids@.take(i as int));
            }
        }
        proof {
            if i < ids@.len() {
                if i < delivered@.len() {
                    assert(!delivered@.skip(i as int)[0]);
                } else {
                    assert(delivered@.skip(i as int).len() == 0);
                }
            }
        }
        out
    }
}

/// An accepted boot keeps the interval the central system gave when it is at
/// least a second, and uses one second otherwise.
pub proof fn law_heartbeat_interval(interval: i32)
    ensures
        interval >= 1 ==> heartbeat_interval_spec(interval) == interval,
        interval < 1 ==> heartbeat_interval_spec(interval) == 1,
{
}

/// The replay acknowledges the calls before the first failed one: when the
/// first `n` calls were delivered and the next one (if any) failed, exactly
/// `n` calls count as delivered.
pub proof fn law_delivered_prefix(delivered: Seq<bool>, n: int)
    requires
        0 <= n <= delivered.len(),
        forall|i: int| 0 <= i < n ==> #[trigger] delivered[i],
        n == delivered.len() || !delivered[n],
    ensures
        delivered_prefix(delivered) == n,
    decreases n,
{
    if n > 0 {
        let t = delivered.drop_first();
        assert forall|i: int| 0 <= i < n - 1 implies #[trigger] t[i] by {
            assert(t[i] == delivered[i + 1]);
        }
        if n < delivered.len() {
            assert(t[n - 1] == delivered[n]);
        }
        law_delivered_prefix(t, n - 1);
        assert(delivered[0]);
    }
}

} // verus!
