//! Decisions of the charge-point task that bridges a battery and a session
//! with the central system.

use vstd::prelude::*;

use crate::enums::MessageTrigger;

verus! {

/// What the charge point sends when the central system triggers a message.
#[derive(Debug, Clone, Copy, PartialEq, Eq, Structural)]
pub enum TriggeredReport {
    /// A fresh `BootNotification`.
    Boot,
    /// A `Heartbeat`.
    Heartbeat,
    /// The last known firmware status.
    FirmwareStatus,
    /// The last known diagnostics status.
    DiagnosticsStatus,
}

/// The report a trigger asks for; `None` for the triggers this gateway does
/// not serve (meter values and status notifications come from the battery).
pub open spec fn triggered_report_spec(t: MessageTrigger) -> Option<TriggeredReport> {
    match t {
        MessageTrigger::BootNotification => Some(TriggeredReport::Boot),
        MessageTrigger::Heartbeat => Some(TriggeredReport::Heartbeat),
        MessageTrigger::FirmwareStatusNotification => Some(TriggeredReport::FirmwareStatus),
        MessageTrigger::DiagnosticsStatusNotification => Some(TriggeredReport::DiagnosticsStatus),
        MessageTrigger::MeterValues => None,
        MessageTrigger::StatusNotification => None,
    }
}

/// The report to send for a trigger the central system requested.
pub fn triggered_report(t: MessageTrigger) -> (r: Option<TriggeredReport>)
    ensures
        r == triggered_report_spec(t),
{
    match t {
        MessageTrigger::BootNotification => Some(TriggeredReport::Boot),
        MessageTrigger::Heartbeat => Some(TriggeredReport::Heartbeat),
        MessageTrigger::FirmwareStatusNotification => Some(TriggeredReport::FirmwareStatus),
        MessageTrigger::DiagnosticsStatusNotification => Some(TriggeredReport::DiagnosticsStatus),
        MessageTrigger::MeterValues => None,
        MessageTrigger::StatusNotification => None,
    }
}

/// The triggers the gateway serves itself are the boot notification, the
/// heartbeat and the two status notifications of firmware and diagnostics,
/// each answered by its own report; meter values and connector statuses are
/// left to the battery.
pub proof fn law_triggered_reports(t: MessageTrigger)
    ensures
        t == MessageTrigger::BootNotification <==> triggered_report_spec(t) == Some(TriggeredReport::Boot),
        t == MessageTrigger::Heartbeat <==> triggered_report_spec(t) == Some(TriggeredReport::Heartbeat),
        t == MessageTrigger::FirmwareStatusNotification <==> triggered_report_spec(t) == Some(
            TriggeredReport::FirmwareStatus,
        ),
        t == MessageTrigger::DiagnosticsStatusNotification <==> triggered_report_spec(t) == Some(
            TriggeredReport::DiagnosticsStatus,
        ),
        (t == MessageTrigger::MeterValues || t == MessageTrigger::StatusNotification) <==> triggered_report_spec(t)
            is None,
{
}

} // verus!
