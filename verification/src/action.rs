//! The OCPP 1.6 actions and their wire names.

use vstd::prelude::*;

use crate::text::str_eq;

verus! {

broadcast use vstd::string::group_string_axioms;

/// Every action known to this implementation, charge-point initiated and
/// central-system initiated. Used to route incoming `CALL`s.
#[derive(Debug, Clone, Copy, PartialEq, Eq, Structural)]
pub enum Action {
    // Charge-point initiated
    BootNotification,
    Heartbeat,
    Authorize,
    StartTransaction,
    StopTransaction,
    MeterValues,
    StatusNotification,
    DataTransfer,
    // Central-system initiated
    RemoteStartTransaction,
    RemoteStopTransaction,
    TriggerMessage,
    Reset,
    ChangeConfiguration,
    GetConfiguration,
    UnlockConnector,
    ChangeAvailability,
    UpdateFirmware,
    FirmwareStatusNotification,
    GetDiagnostics,
    DiagnosticsStatusNotification,
    ClearCache,
    GetLocalListVersion,
    SendLocalList,
    ReserveNow,
    CancelReservation,
    SetChargingProfile,
    ClearChargingProfile,
    GetCompositeSchedule,
}

/// The wire name of an action (the `Action` element of a `CALL`).
pub open spec fn action_name(a: Action) -> Seq<char> {
    match a {
        Action::BootNotification => "BootNotification"@,
        Action::Heartbeat => "Heartbeat"@,
        Action::Authorize => "Authorize"@,
        Action::StartTransaction => "StartTransaction"@,
        Action::StopTransaction => "StopTransaction"@,
        Action::MeterValues => "MeterValues"@,
        Action::StatusNotification => "StatusNotification"@,
        Action::DataTransfer => "DataTransfer"@,
        Action::RemoteStartTransaction => "RemoteStartTransaction"@,
        Action::RemoteStopTransaction => "RemoteStopTransaction"@,
        Action::TriggerMessage => "TriggerMessage"@,
        Action::Reset => "Reset"@,
        Action::ChangeConfiguration => "ChangeConfiguration"@,
        Action::GetConfiguration => "GetConfiguration"@,
        Action::UnlockConnector => "UnlockConnector"@,
        Action::ChangeAvailability => "ChangeAvailability"@,
        Action::UpdateFirmware => "UpdateFirmware"@,
        Action::FirmwareStatusNotification => "FirmwareStatusNotification"@,
        Action::GetDiagnostics => "GetDiagnostics"@,
        Action::DiagnosticsStatusNotification => "DiagnosticsStatusNotification"@,
        Action::ClearCache => "ClearCache"@,
        Action::GetLocalListVersion => "GetLocalListVersion"@,
        Action::SendLocalList => "SendLocalList"@,
        Action::ReserveNow => "ReserveNow"@,
        Action::CancelReservation => "CancelReservation"@,
        Action::SetChargingProfile => "SetChargingProfile"@,
        Action::ClearChargingProfile => "ClearChargingProfile"@,
        Action::GetCompositeSchedule => "GetCompositeSchedule"@,
    }
}

/// Every action, in declaration order.
pub open spec fn all_actions() -> Seq<Action> {
    seq![
        Action::BootNotification,
        Action::Heartbeat,
        Action::Authorize,
        Action::StartTransaction,
        Action::StopTransaction,
        Action::MeterValues,
        Action::StatusNotification,
        Action::DataTransfer,
        Action::RemoteStartTransaction,
        Action::RemoteStopTransaction,
        Action::TriggerMessage,
        Action::Reset,
        Action::ChangeConfiguration,
        Action::GetConfiguration,
        Action::UnlockConnector,
        Action::ChangeAvailability,
        Action::UpdateFirmware,
        Action::FirmwareStatusNotification,
        Action::GetDiagnostics,
        Action::DiagnosticsStatusNotification,
        Action::ClearCache,
        Action::GetLocalListVersion,
        Action::SendLocalList,
        Action::ReserveNow,
        Action::CancelReservation,
        Action::SetChargingProfile,
        Action::ClearChargingProfile,
        Action::GetCompositeSchedule,
    ]
}

/// The action whose wire name is `s`, if there is one.
pub open spec fn action_from_name(s: Seq<char>) -> Option<Action> {
    if exists|a: Action| action_name(a) == s {
        Some(choose|a: Action| action_name(a) == s)
    } else {
        None
    }
}

impl Action {
    /// The wire name of this action.
    pub fn as_str(&self) -> (r: &'static str)
        ensures
            r@ == action_name(*self),
    {
        match self {
            Action::BootNotification => "BootNotification",
            Action::Heartbeat => "Heartbeat",
            Action::Authorize => "Authorize",
            Action::StartTransaction => "StartTransaction",
            Action::StopTransaction => "StopTransaction",
            Action::MeterValues => "MeterValues",
            Action::StatusNotification => "StatusNotification",
            Action::DataTransfer => "DataTransfer",
            Action::RemoteStartTransaction => "RemoteStartTransaction",
            Action::RemoteStopTransaction => "RemoteStopTransaction",
            Action::TriggerMessage => "TriggerMessage",
            Action::Reset => "Reset",
            Action::ChangeConfiguration => "ChangeConfiguration",
            Action::GetConfiguration => "GetConfiguration",
            Action::UnlockConnector => "UnlockConnector",
            Action::ChangeAvailability => "ChangeAvailability",
            Action::UpdateFirmware => "UpdateFirmware",
            Action::FirmwareStatusNotification => "FirmwareStatusNotification",
            Action::GetDiagnostics => "GetDiagnostics",
            Action::DiagnosticsStatusNotification => "DiagnosticsStatusNotification",
            Action::ClearCache => "ClearCache",
            Action::GetLocalListVersion => "GetLocalListVersion",
            Action::SendLocalList => "SendLocalList",
            Action::ReserveNow => "ReserveNow",
            Action::CancelReservation => "CancelReservation",
            Action::SetChargingProfile => "SetChargingProfile",
            Action::ClearChargingProfile => "ClearChargingProfile",
            Action::GetCompositeSchedule => "GetCompositeSchedule",
        }
    }

    /// The action whose wire name is `s`, or `None` when no action has that name.
    pub fn parse(s: &str) -> (r: Option<Self>)
        ensures
            r == action_from_name(s@),
    {
        let mut i: usize = 0;
        let ghost all = all_actions();
        let table = action_table();
        while i < table.len()
            invariant
                table@ == all,
                i <= table@.len(),
                forall|j: int| 0 <= j < i ==> action_name(#[trigger] all[j]) != s@,
            decreases table@.len() - i,
        {
            let a = table[i];
            if str_eq(a.as_str(), s) {
                proof {
                    lemma_action_from_name(a);
                }
                return Some(a);
            }
            i = i + 1;
        }
        proof {
            assert forall|a: Action| action_name(a) != s@ by {
                lemma_all_actions_complete(a);
            }
        }
        None
    }
}

/// Every action, in declaration order, as a vector.
fn action_table() -> (v: Vec<Action>)
    ensures
        v@ == all_actions(),
{
    let v: Vec<Action> = vec![
        Action::BootNotification,
        Action::Heartbeat,
        Action::Authorize,
        Action::StartTransaction,
        Action::StopTransaction,
        Action::MeterValues,
        Action::StatusNotification,
        Action::DataTransfer,
        Action::RemoteStartTransaction,
        Action::RemoteStopTransaction,
        Action::TriggerMessage,
        Action::Reset,
        Action::ChangeConfiguration,
        Action::GetConfiguration,
        Action::UnlockConnector,
        Action::ChangeAvailability,
        Action::UpdateFirmware,
        Action::FirmwareStatusNotification,
        Action::GetDiagnostics,
        Action::DiagnosticsStatusNotification,
        Action::ClearCache,
        Action::GetLocalListVersion,
        Action::SendLocalList,
        Action::ReserveNow,
        Action::CancelReservation,
        Action::SetChargingProfile,
        Action::ClearChargingProfile,
        Action::GetCompositeSchedule,
    ];
    assert(v@ =~= all_actions());
    v
}

/// `all_actions` lists every action.
proof fn lemma_all_actions_complete(a: Action)
    ensures
        all_actions().contains(a),
{
    match a {
        Action::BootNotification => assert(all_actions()[0] == a),
        Action::Heartbeat => assert(all_actions()[1] == a),
        Action::Authorize => assert(all_actions()[2] == a),
        Action::StartTransaction => assert(all_actions()[3] == a),
        Action::StopTransaction => assert(all_actions()[4] == a),
        Action::MeterValues => assert(all_actions()[5] == a),
        Action::StatusNotification => assert(all_actions()[6] == a),
        Action::DataTransfer => assert(all_actions()[7] == a),
        Action::RemoteStartTransaction => assert(all_actions()[8] == a),
        Action::RemoteStopTransaction => assert(all_actions()[9] == a),
        Action::TriggerMessage => assert(all_actions()[10] == a),
        Action::Reset => assert(all_actions()[11] == a),
        Action::ChangeConfiguration => assert(all_actions()[12] == a),
        Action::GetConfiguration => assert(all_actions()[13] == a),
        Action::UnlockConnector => assert(all_actions()[14] == a),
        Action::ChangeAvailability => assert(all_actions()[15] == a),
        Action::UpdateFirmware => assert(all_actions()[16] == a),
        Action::FirmwareStatusNotification => assert(all_actions()[17] == a),
        Action::GetDiagnostics => assert(all_actions()[18] == a),
        Action::DiagnosticsStatusNotification => assert(all_actions()[19] == a),
        Action::ClearCache => assert(all_actions()[20] == a),
        Action::GetLocalListVersion => assert(all_actions()[21] == a),
        Action::SendLocalList => assert(all_actions()[22] == a),
        Action::ReserveNow => assert(all_actions()[23] == a),
        Action::CancelReservation => assert(all_actions()[24] == a),
        Action::SetChargingProfile => assert(all_actions()[25] == a),
        Action::ClearChargingProfile => assert(all_actions()[26] == a),
        Action::GetCompositeSchedule => assert(all_actions()[27] == a),
    }
}

/// Length, first and third character: enough to tell the action names apart.
spec fn name_signature(s: Seq<char>) -> (nat, char, char) {
    (s.len(), s[0], s[2])
}

/// The signature of each action's name, written out.
spec fn action_signature(a: Action) -> (nat, char, char) {
    match a {
        Action::BootNotification => (16, 'B', 'o'),
        Action::Heartbeat => (9, 'H', 'a'),
        Action::Authorize => (9, 'A', 't'),
        Action::StartTransaction => (16, 'S', 'a'),
        Action::StopTransaction => (15, 'S', 'o'),
        Action::MeterValues => (11, 'M', 't'),
        Action::StatusNotification => (18, 'S', 'a'),
        Action::DataTransfer => (12, 'D', 't'),
        Action::RemoteStartTransaction => (22, 'R', 'm'),
        Action::RemoteStopTransaction => (21, 'R', 'm'),
        Action::TriggerMessage => (14, 'T', 'i'),
        Action::Reset => (5, 'R', 's'),
        Action::ChangeConfiguration => (19, 'C', 'a'),
        Action::GetConfiguration => (16, 'G', 't'),
        Action::UnlockConnector => (15, 'U', 'l'),
        Action::ChangeAvailability => (18, 'C', 'a'),
        Action::UpdateFirmware => (14, 'U', 'd'),
        Action::FirmwareStatusNotification => (26, 'F', 'r'),
        Action::GetDiagnostics => (14, 'G', 't'),
        Action::DiagnosticsStatusNotification => (29, 'D', 'a'),
        Action::ClearCache => (10, 'C', 'e'),
        Action::GetLocalListVersion => (19, 'G', 't'),
        Action::SendLocalList => (13, 'S', 'n'),
        Action::ReserveNow => (10, 'R', 's'),
        Action::CancelReservation => (17, 'C', 'n'),
        Action::SetChargingProfile => (18, 'S', 't'),
        Action::ClearChargingProfile => (20, 'C', 'e'),
        Action::GetCompositeSchedule => (20, 'G', 't'),
    }
}

proof fn lemma_name_signature(a: Action)
    ensures
        name_signature(action_name(a)) == action_signature(a),
{
    match a {
        Action::BootNotification => {
            reveal_strlit("BootNotification");
            assert("BootNotification"@[0] == 'B' && "BootNotification"@[2] == 'o');
        },
        Action::Heartbeat => {
            reveal_strlit("Heartbeat");
            assert("Heartbeat"@[0] == 'H' && "Heartbeat"@[2] == 'a');
        },
        Action::Authorize => {
            reveal_strlit("Authorize");
            assert("Authorize"@[0] == 'A' && "Authorize"@[2] == 't');
        },
        Action::StartTransaction => {
            reveal_strlit("StartTransaction");
            assert("StartTransaction"@[0] == 'S' && "StartTransaction"@[2] == 'a');
        },
        Action::StopTransaction => {
            reveal_strlit("StopTransaction");
            assert("StopTransaction"@[0] == 'S' && "StopTransaction"@[2] == 'o');
        },
        Action::MeterValues => {
            reveal_strlit("MeterValues");
            assert("MeterValues"@[0] == 'M' && "MeterValues"@[2] == 't');
        },
        Action::StatusNotification => {
            reveal_strlit("StatusNotification");
            assert("StatusNotification"@[0] == 'S' && "StatusNotification"@[2] == 'a');
        },
        Action::DataTransfer => {
            reveal_strlit("DataTransfer");
            assert("DataTransfer"@[0] == 'D' && "DataTransfer"@[2] == 't');
        },
        Action::RemoteStartTransaction => {
            reveal_strlit("RemoteStartTransaction");
            assert("RemoteStartTransaction"@[0] == 'R' && "RemoteStartTransaction"@[2] == 'm');
        },
        Action::RemoteStopTransaction => {
            reveal_strlit("RemoteStopTransaction");
            assert("RemoteStopTransaction"@[0] == 'R' && "RemoteStopTransaction"@[2] == 'm');
        },
        Action::TriggerMessage => {
            reveal_strlit("TriggerMessage");
            assert("TriggerMessage"@[0] == 'T' && "TriggerMessage"@[2] == 'i');
        },
        Action::Reset => {
            reveal_strlit("Reset");
            assert("Reset"@[0] == 'R' && "Reset"@[2] == 's');
        },
        Action::ChangeConfiguration => {
            reveal_strlit("ChangeConfiguration");
            assert("ChangeConfiguration"@[0] == 'C' && "ChangeConfiguration"@[2] == 'a');
        },
        Action::GetConfiguration => {
            reveal_strlit("GetConfiguration");
            assert("GetConfiguration"@[0] == 'G' && "GetConfiguration"@[2] == 't');
        },
        Action::UnlockConnector => {
            reveal_strlit("UnlockConnector");
            assert("UnlockConnector"@[0] == 'U' && "UnlockConnector"@[2] == 'l');
        },
        Action::ChangeAvailability => {
            reveal_strlit("ChangeAvailability");
            assert("ChangeAvailability"@[0] == 'C' && "ChangeAvailability"@[2] == 'a');
        },
        Action::UpdateFirmware => {
            reveal_strlit("UpdateFirmware");
            assert("UpdateFirmware"@[0] == 'U' && "UpdateFirmware"@[2] == 'd');
        },
        Action::FirmwareStatusNotification => {
            reveal_strlit("FirmwareStatusNotification");
            assert("FirmwareStatusNotification"@[0] == 'F' && "FirmwareStatusNotification"@[2] == 'r');
        },
        Action::GetDiagnostics => {
            reveal_strlit("GetDiagnostics");
            assert("GetDiagnostics"@[0] == 'G' && "GetDiagnostics"@[2] == 't');
        },
        Action::DiagnosticsStatusNotification => {
            reveal_strlit("DiagnosticsStatusNotification");
            assert("DiagnosticsStatusNotification"@[0] == 'D' && "DiagnosticsStatusNotification"@[2] == 'a');
        },
        Action::ClearCache => {
            reveal_strlit("ClearCache");
            assert("ClearCache"@[0] == 'C' && "ClearCache"@[2] == 'e');
        },
        Action::GetLocalListVersion => {
            reveal_strlit("GetLocalListVersion");
            assert("GetLocalListVersion"@[0] == 'G' && "GetLocalListVersion"@[2] == 't');
        },
        Action::SendLocalList => {
            reveal_strlit("SendLocalList");
            assert("SendLocalList"@[0] == 'S' && "SendLocalList"@[2] == 'n');
        },
        Action::ReserveNow => {
            reveal_strlit("ReserveNow");
            assert("ReserveNow"@[0] == 'R' && "ReserveNow"@[2] == 's');
        },
        Action::CancelReservation => {
            reveal_strlit("CancelReservation");
            assert("CancelReservation"@[0] == 'C' && "CancelReservation"@[2] == 'n');
        },
        Action::SetChargingProfile => {
            reveal_strlit("SetChargingProfile");
            assert("SetChargingProfile"@[0] == 'S' && "SetChargingProfile"@[2] == 't');
        },
        Action::ClearChargingProfile => {
            reveal_strlit("ClearChargingProfile");
            assert("ClearChargingProfile"@[0] == 'C' && "ClearChargingProfile"@[2] == 'e');
        },
        Action::GetCompositeSchedule => {
            reveal_strlit("GetCompositeSchedule");
            assert("GetCompositeSchedule"@[0] == 'G' && "GetCompositeSchedule"@[2] == 't');
        },
    }
}

/// Distinct actions have distinct wire names.
pub proof fn lemma_action_name_injective(a: Action, b: Action)
    requires
        action_name(a) == action_name(b),
    ensures
        a == b,
{
    lemma_name_signature(a);
    lemma_name_signature(b);
}

/// The name of `a` denotes `a` and nothing else.
proof fn lemma_action_from_name(a: Action)
    ensures
        action_from_name(action_name(a)) == Some(a),
{
    let b = choose|b: Action| action_name(b) == action_name(a);
    lemma_action_name_injective(a, b);
}

/// Parsing the wire name of an action gives that action back.
pub proof fn law_parse_as_str(a: Action)
    ensures
        action_from_name(action_name(a)) == Some(a),
{
    lemma_action_from_name(a);
}

/// Whatever a name parses to carries that name.
pub proof fn law_as_str_parse(s: Seq<char>)
    ensures
        action_from_name(s) matches Some(a) ==> action_name(a) == s,
{
}

} // verus!

verus! {

/// A message that can be sent as the payload of an OCPP `CALL`.
pub trait OcppRequest {
    /// The payload of the matching `CALLRESULT`.
    type Response: OcppResponse;

    /// OCPP action name (e.g. `"BootNotification"`).
    const ACTION: &'static str;
}

/// A message that can be returned as the payload of an OCPP `CALLRESULT`.
pub trait OcppResponse {}

} // verus!
