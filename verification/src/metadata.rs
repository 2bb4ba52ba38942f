//! Charge-point status, firmware and diagnostics notifications.

use vstd::prelude::*;

use crate::enums::{ChargePointErrorCode, ChargePointStatus, DiagnosticsStatus, FirmwareStatus};
use crate::events::DeviceEvent;
use crate::messages::{
    DiagnosticsStatusNotificationRequest, FirmwareStatusNotificationRequest, StatusNotificationRequest,
    Timestamp,
};

verus! {

/// A notification the central system is to receive.
#[derive(Debug, Clone, PartialEq)]
pub enum Notification {
    Status(StatusNotificationRequest),
    FirmwareStatus(FirmwareStatusNotificationRequest),
    DiagnosticsStatus(DiagnosticsStatusNotificationRequest),
}

/// A connector status notification with no error and no vendor details.
pub open spec fn plain_status(connector_id: i32, status: ChargePointStatus, now: Timestamp) -> Notification {
    Notification::Status(
        StatusNotificationRequest {
            connector_id,
            error_code: ChargePointErrorCode::NoError,
            info: None,
            status,
            timestamp: Some(now),
            vendor_id: None,
            vendor_error_code: None,
        },
    )
}

/// What a device event is reported as: plugging in makes the connector
/// `Preparing`, unplugging makes it `Available`, status events pass through,
/// firmware and diagnostics events become their notifications, the rest is
/// not reported.
pub open spec fn notification_for(event: DeviceEvent, now: Timestamp) -> Option<Notification> {
    match event {
        DeviceEvent::Plugged { connector_id } => Some(plain_status(connector_id, ChargePointStatus::Preparing, now)),
        DeviceEvent::Unplugged { connector_id } => Some(plain_status(connector_id, ChargePointStatus::Available, now)),
        DeviceEvent::Status { connector_id, status, error_code, info } => Some(
            Notification::Status(
                StatusNotificationRequest {
                    connector_id,
                    error_code,
                    info,
                    status,
                    timestamp: Some(now),
                    vendor_id: None,
                    vendor_error_code: None,
                },
            ),
        ),
        DeviceEvent::FirmwareStatus { status } => Some(
            Notification::FirmwareStatus(FirmwareStatusNotificationRequest { status }),
        ),
        DeviceEvent::DiagnosticsStatus { status } => Some(
            Notification::DiagnosticsStatus(DiagnosticsStatusNotificationRequest { status }),
        ),
        _ => None,
    }
}

/// The last firmware status known after `event`.
pub open spec fn firmware_after(last: Option<FirmwareStatus>, event: DeviceEvent) -> Option<FirmwareStatus> {
    match event {
        DeviceEvent::FirmwareStatus { status } => Some(status),
        _ => last,
    }
}

/// The last diagnostics status known after `event`.
pub open spec fn diagnostics_after(last: Option<DiagnosticsStatus>, event: DeviceEvent) -> Option<
    DiagnosticsStatus,
> {
    match event {
        DeviceEvent::DiagnosticsStatus { status } => Some(status),
        _ => last,
    }
}

/// The firmware status reported on request: the last known one, else `Idle`.
pub open spec fn reported_firmware(last: Option<FirmwareStatus>) -> FirmwareStatus {
    match last {
        Some(s) => s,
        None => FirmwareStatus::Idle,
    }
}

/// The diagnostics status reported on request: the last known one, else `Idle`.
pub open spec fn reported_diagnostics(last: Option<DiagnosticsStatus>) -> DiagnosticsStatus {
    match last {
        Some(s) => s,
        None => DiagnosticsStatus::Idle,
    }
}

/// The last firmware and diagnostics statuses a battery reported, so that
/// they can be repeated when the central system asks for them.
pub struct MetadataManager {
    cp_id: String,
    last_firmware_status: Option<FirmwareStatus>,
    last_diagnostics_status: Option<DiagnosticsStatus>,
}

impl MetadataManager {
    pub closed spec fn cp_id_spec(&self) -> Seq<char> {
        self.cp_id@
    }

    pub closed spec fn last_firmware(&self) -> Option<FirmwareStatus> {
        self.last_firmware_status
    }

    pub closed spec fn last_diagnostics(&self) -> Option<DiagnosticsStatus> {
        self.last_diagnostics_status
    }

    /// A manager for charge point `cp_id` that has seen no status yet.
    pub fn new(cp_id: String) -> (r: Self)
        ensures
            r.cp_id_spec() == cp_id@,
            r.last_firmware() is None,
            r.last_diagnostics() is None,
    {
        MetadataManager { cp_id, last_firmware_status: None, last_diagnostics_status: None }
    }

    /// The charge point this manager serves.
    pub fn cp_id(&self) -> (r: &str)
        ensures
            r@ == self.cp_id_spec(),
    {
        self.cp_id.as_str()
    }

    /// Takes in a device event at `now`: records firmware and diagnostics
    /// statuses, and returns the notification to send, if any.
    pub fn handle_event(&mut self, event: DeviceEvent, now: Timestamp) -> (r: Option<Notification>)
        ensures
            r == notification_for(event, now),
            event matches DeviceEvent::FirmwareStatus { status } ==> r == Some(
                Notification::FirmwareStatus(FirmwareStatusNotificationRequest { status }),
            ),
            event matches DeviceEvent::DiagnosticsStatus { status } ==> r == Some(
                Notification::DiagnosticsStatus(DiagnosticsStatusNotificationRequest { status }),
            ),
            final(self).cp_id_spec() == old(self).cp_id_spec(),
            final(self).last_firmware() == firmware_after(old(self).last_firmware(), event),
            final(self).last_diagnostics() == diagnostics_after(old(self).last_diagnostics(), event),
    {
        match event {
            DeviceEvent::Plugged { connector_id } => Some(
                Self::status(connector_id, ChargePointStatus::Preparing, now),
            ),
            DeviceEvent::Unplugged { connector_id } => Some(
                Self::status(connector_id, ChargePointStatus::Available, now),
            ),
            DeviceEvent::Status { connector_id, status, error_code, info } => Some(
                Notification::Status(
                    StatusNotificationRequest {
                        connector_id,
                        error_code,
                        info,
                        status,
                        timestamp: Some(now),
                        vendor_id: None,
                        vendor_error_code: None,
                    },
                ),
            ),
            DeviceEvent::FirmwareStatus { status } => {
                self.last_firmware_status = Some(status);
                Some(Notification::FirmwareStatus(FirmwareStatusNotificationRequest { status }))
            },
            DeviceEvent::DiagnosticsStatus { status } => {
                self.last_diagnostics_status = Some(status);
                Some(Notification::DiagnosticsStatus(DiagnosticsStatusNotificationRequest { status }))
            },
            _ => None,
        }
    }

    /// The firmware status to report on request: the last one the battery
    /// reported, `Idle` if none.
    pub fn report_firmware_status(&self) -> (r: FirmwareStatusNotificationRequest)
        ensures
            r.status == reported_firmware(self.last_firmware()),
    {
        let status = match self.last_firmware_status {
            Some(s) => s,
            None => FirmwareStatus::Idle,
        };
        FirmwareStatusNotificationRequest { status }
    }

    /// The diagnostics status to report on request: the last one the battery
    /// reported, `Idle` if none.
    pub fn report_diagnostics_status(&self) -> (r: DiagnosticsStatusNotificationRequest)
        ensures
            r.status == reported_diagnostics(self.last_diagnostics()),
    {
        let status = match self.last_diagnostics_status {
            Some(s) => s,
            None => DiagnosticsStatus::Idle,
        };
        DiagnosticsStatusNotificationRequest { status }
    }

    /// A connector status notification with no error and no vendor details.
    fn status(connector_id: i32, status: ChargePointStatus, now: Timestamp) -> (r: Notification)
        ensures
            r == plain_status(connector_id, status, now),
    {
        Notification::Status(
            StatusNotificationRequest {
                connector_id,
                error_code: ChargePointErrorCode::NoError,
                info: None,
                status,
                timestamp: Some(now),
                vendor_id: None,
                vendor_error_code: None,
            },
        )
    }
}

/// What the central system hears of each device event: a firmware or
/// diagnostics status is sent on as its notification with the same status;
/// plugging in reports the connector `Preparing` and unplugging `Available`,
/// with no error and the event's time; a connector status is sent on with
/// its own fields and the event's time; every other event sends nothing.
pub proof fn law_device_events_are_reported(event: DeviceEvent, now: Timestamp)
    ensures
        event matches DeviceEvent::FirmwareStatus { status } ==> notification_for(event, now) == Some(
            Notification::FirmwareStatus(FirmwareStatusNotificationRequest { status }),
        ),
        event matches DeviceEvent::DiagnosticsStatus { status } ==> notification_for(event, now) == Some(
            Notification::DiagnosticsStatus(DiagnosticsStatusNotificationRequest { status }),
        ),
        event matches DeviceEvent::Plugged { connector_id } ==> notification_for(event, now) matches Some(
            Notification::Status(r),
        ) && r.connector_id == connector_id && r.status == ChargePointStatus::Preparing && r.error_code
            == ChargePointErrorCode::NoError && r.timestamp == Some(now),
        event matches DeviceEvent::Unplugged { connector_id } ==> notification_for(event, now) matches Some(
            Notification::Status(r),
        ) && r.connector_id == connector_id && r.status == ChargePointStatus::Available && r.error_code
            == ChargePointErrorCode::NoError && r.timestamp == Some(now),
        event matches DeviceEvent::Status { connector_id, status, error_code, info } ==> notification_for(
            event,
            now,
        ) matches Some(Notification::Status(r)) && r.connector_id == connector_id && r.status == status
            && r.error_code == error_code && r.info == info && r.timestamp == Some(now),
        (event is AuthorizeRequest || event is SessionStopped || event is Meter || event is Alive || event is CommandAck
            || event is DiagnosticsFile || event is DataTransferResult) ==> notification_for(event, now) is None,
{
}

/// A status the battery reports is the one repeated on request, until it
/// reports another: events of other kinds leave it as it is.
pub proof fn law_reported_status_is_last_reported(
    last_fw: Option<FirmwareStatus>,
    last_diag: Option<DiagnosticsStatus>,
    event: DeviceEvent,
)
    ensures
        event matches DeviceEvent::FirmwareStatus { status } ==> reported_firmware(
            firmware_after(last_fw, event),
        ) == status,
        event matches DeviceEvent::DiagnosticsStatus { status } ==> reported_diagnostics(
            diagnostics_after(last_diag, event),
        ) == status,
        !(event is FirmwareStatus) ==> firmware_after(last_fw, event) == last_fw,
        !(event is DiagnosticsStatus) ==> diagnostics_after(last_diag, event) == last_diag,
{
}

} // verus!
