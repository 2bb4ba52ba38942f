//! What the gateway exchanges with an internal battery: the events it
//! receives and the commands it sends.

use vstd::prelude::*;

use crate::enums::{
    AvailabilityType, ChargePointErrorCode, ChargePointStatus, DataTransferStatus, DiagnosticsStatus,
    FirmwareStatus, StopReason,
};
use crate::messages::{Timestamp, NANOS_PER_SECOND};
use crate::text::{format_i128, format_i32, int_to_decimal};

verus! {

/// Single meter sample reported by an internal battery. The fractional
/// readings are carried as the decimal text the battery's values print as.
#[derive(Debug, Clone, PartialEq)]
pub struct MeterSample {
    pub timestamp: Timestamp,
    /// SoC %, 0..=100
    pub soc: Option<String>,
    /// Voltage (V)
    pub voltage: Option<String>,
    /// Current (A)
    pub current: Option<String>,
    /// Active power (W)
    pub power_w: Option<String>,
    /// Energy register (Wh) — used as MeterStart/MeterStop.
    pub energy_wh: Option<i32>,
    /// Pack temperature (°C)
    pub temperature_c: Option<String>,
}

/// Events the gateway receives from an internal battery.
#[derive(Debug, Clone, PartialEq)]
pub enum DeviceEvent {
    /// Connector physically connected and ready.
    Plugged { connector_id: i32 },
    /// Connector disconnected.
    Unplugged { connector_id: i32 },
    /// Battery wants to start a session: gateway should Authorize then StartTransaction.
    AuthorizeRequest { connector_id: i32, id_tag: String, meter_start: i32 },
    /// Charging session ended locally.
    SessionStopped { transaction_id: i32, meter_stop: i32, reason: Option<StopReason> },
    /// Periodic meter sample (gateway packages this into MeterValues).
    Meter { connector_id: i32, sample: MeterSample },
    /// Status / fault from the battery.
    Status {
        connector_id: i32,
        status: ChargePointStatus,
        error_code: ChargePointErrorCode,
        info: Option<String>,
    },
    /// Heartbeat from the battery (informational; OCPP heartbeat is independent).
    Alive,
    /// Battery reports current firmware update status (maps to FirmwareStatusNotification).
    FirmwareStatus { status: FirmwareStatus },
    /// Battery reports current diagnostics upload status (maps to DiagnosticsStatusNotification).
    DiagnosticsStatus { status: DiagnosticsStatus },
    /// Response to a command previously sent by this gateway.
    CommandAck { command_id: String, status: DeviceAck },
    /// Response to a GetDiagnostics command with the file name that will be uploaded.
    DiagnosticsFile { command_id: String, file_name: Option<String> },
    /// Response to a DataTransfer command.
    DataTransferResult { command_id: String, status: DataTransferStatus, data: Option<String> },
}

/// Outcome of a device command.
#[derive(Debug, Clone, Copy, PartialEq, Eq, Structural)]
pub enum DeviceAck {
    Accepted,
    Rejected,
    Failed,
    NotSupported,
}

/// Commands the gateway sends to an internal battery. Logs show them by
/// `DeviceCommand::redacted_text`, which leaves out bulky fields.
#[derive(Clone, PartialEq)]
pub enum DeviceCommand {
    StartCharging { command_id: String, connector_id: Option<i32>, id_tag: String },
    StopCharging { command_id: String, transaction_id: i32 },
    Unlock { command_id: String, connector_id: i32 },
    Reboot { command_id: String, hard: bool },
    SetConfig { command_id: String, key: String, value: String },
    SetAvailability { command_id: String, connector_id: i32, availability_type: AvailabilityType },
    /// Ask device to start a firmware download-and-install sequence.
    /// OCPP responds immediately; progress comes via FirmwareStatus events.
    UpdateFirmware {
        location: String,
        retrieve_date: Timestamp,
        retries: Option<i32>,
        retry_interval: Option<i32>,
    },
    /// Ask device to collect and upload a diagnostics file.
    GetDiagnostics {
        command_id: String,
        location: String,
        retries: Option<i32>,
        retry_interval: Option<i32>,
        start_time: Option<Timestamp>,
        stop_time: Option<Timestamp>,
    },
    /// Ask device to clear its local authorization cache.
    ClearCache { command_id: String },
    ReserveNow {
        command_id: String,
        connector_id: i32,
        expiry_date: Timestamp,
        id_tag: String,
        reservation_id: i32,
    },
    CancelReservation { command_id: String, reservation_id: i32 },
    DataTransfer {
        command_id: String,
        vendor_id: String,
        message_id: Option<String>,
        data: Option<String>,
    },
}

/// The text `{:?}` gives for a string: quoted, with escapes.
pub uninterp spec fn str_debug_text(s: Seq<char>) -> Seq<char>;

/// The text `{:?}` gives for the `chrono::DateTime<Utc>` that
/// `DateTime::from_timestamp` makes of `secs` and `nanos`; `None` where the
/// date lies beyond chrono's calendar.
pub uninterp spec fn datetime_debug_text(secs: i64, nanos: u32) -> Option<Seq<char>>;

/// Formats a string with `{:?}` (std's `Debug` for `str`).
#[verifier::external_body]
fn str_debug(s: &str) -> (r: String)
    ensures
        r@ == str_debug_text(s@),
{
    format!("{:?}", s)
}

/// Calls `chrono::DateTime::<Utc>::from_timestamp` and formats the result
/// with `{:?}`. The contract claims only that the result is the one
/// `datetime_debug_text` names for the arguments.
#[verifier::external_body]
fn datetime_debug(secs: i64, nanos: u32) -> (r: Option<String>)
    ensures
        match datetime_debug_text(secs, nanos) {
            Some(t) => r matches Some(x) && x@ == t,
            None => r is None,
        },
{
    match chrono::DateTime::<chrono::Utc>::from_timestamp(secs, nanos) {
        Some(d) => Some(format!("{:?}", d)),
        None => None,
    }
}

/// How a time is shown: as the date and time `chrono` shows, or, for a time
/// beyond its calendar, as the count of nanoseconds.
pub open spec fn timestamp_debug_text(t: Timestamp) -> Seq<char> {
    let secs = t / 1_000_000_000;
    let nanos = t % 1_000_000_000;
    if i64::MIN <= secs <= i64::MAX && datetime_debug_text(secs as i64, nanos as u32) is Some {
        datetime_debug_text(secs as i64, nanos as u32)->0
    } else {
        int_to_decimal(t as int)
    }
}

/// An optional number as `{:?}` shows it.
pub open spec fn debug_opt_i32(o: Option<i32>) -> Seq<char> {
    match o {
        Some(x) => "Some("@ + int_to_decimal(x as int) + ")"@,
        None => "None"@,
    }
}

/// An optional string as `{:?}` shows it.
pub open spec fn debug_opt_str(o: Option<String>) -> Seq<char> {
    match o {
        Some(x) => "Some("@ + str_debug_text(x@) + ")"@,
        None => "None"@,
    }
}

/// The fields of a struct as `{:?}` shows them: `name: value`, separated by `, `.
pub open spec fn fields_text(fields: Seq<(Seq<char>, Seq<char>)>) -> Seq<char>
    decreases fields.len(),
{
    if fields.len() == 0 {
        Seq::empty()
    } else if fields.len() == 1 {
        fields[0].0 + ": "@ + fields[0].1
    } else {
        fields_text(fields.drop_last()) + ", "@ + fields.last().0 + ": "@ + fields.last().1
    }
}

/// A struct as `{:?}` shows it: `Name { field: value, .. }`.
pub open spec fn struct_text(name: Seq<char>, fields: Seq<(Seq<char>, Seq<char>)>) -> Seq<char> {
    name + " { "@ + fields_text(fields) + " }"@
}

/// How a command is shown in logs: its name and the fields that identify
/// it. Retry counts, time windows and transferred data are left out.
pub open spec fn command_text(c: DeviceCommand) -> Seq<char> {
    match c {
        DeviceCommand::StartCharging { command_id, connector_id, id_tag } => struct_text(
            "StartCharging"@,
            seq![
                ("command_id"@, str_debug_text(command_id@)),
                ("connector_id"@, debug_opt_i32(connector_id)),
                ("id_tag"@, str_debug_text(id_tag@)),
            ],
        ),
        DeviceCommand::StopCharging { command_id, transaction_id } => struct_text(
            "StopCharging"@,
            seq![("command_id"@, str_debug_text(command_id@)), ("transaction_id"@, int_to_decimal(transaction_id as int))],
        ),
        DeviceCommand::Unlock { command_id, connector_id } => struct_text(
            "Unlock"@,
            seq![("command_id"@, str_debug_text(command_id@)), ("connector_id"@, int_to_decimal(connector_id as int))],
        ),
        DeviceCommand::Reboot { command_id, hard } => struct_text(
            "Reboot"@,
            seq![("command_id"@, str_debug_text(command_id@)), ("hard"@, if hard { "true"@ } else { "false"@ })],
        ),
        DeviceCommand::SetConfig { command_id, key, value } => struct_text(
            "SetConfig"@,
            seq![("command_id"@, str_debug_text(command_id@)), ("key"@, str_debug_text(key@)), ("value"@, str_debug_text(value@))],
        ),
        DeviceCommand::SetAvailability { command_id, connector_id, availability_type } => struct_text(
            "SetAvailability"@,
            seq![
                ("command_id"@, str_debug_text(command_id@)),
                ("connector_id"@, int_to_decimal(connector_id as int)),
                ("type"@, match availability_type {
                    AvailabilityType::Inoperative => "Inoperative"@,
                    AvailabilityType::Operative => "Operative"@,
                }),
            ],
        ),
        DeviceCommand::UpdateFirmware { location, retrieve_date, .. } => struct_text(
            "UpdateFirmware"@,
            seq![("location"@, str_debug_text(location@)), ("retrieve_date"@, timestamp_debug_text(retrieve_date))],
        ),
        DeviceCommand::GetDiagnostics { command_id, location, .. } => struct_text(
            "GetDiagnostics"@,
            seq![("command_id"@, str_debug_text(command_id@)), ("location"@, str_debug_text(location@))],
        ),
        DeviceCommand::ClearCache { command_id } => struct_text("ClearCache"@, seq![("command_id"@, str_debug_text(command_id@))]),
        DeviceCommand::ReserveNow { command_id, connector_id, id_tag, reservation_id, .. } => struct_text(
            "ReserveNow"@,
            seq![
                ("command_id"@, str_debug_text(command_id@)),
                ("connector_id"@, int_to_decimal(connector_id as int)),
                ("id_tag"@, str_debug_text(id_tag@)),
                ("reservation_id"@, int_to_decimal(reservation_id as int)),
            ],
        ),
        DeviceCommand::CancelReservation { command_id, reservation_id } => struct_text(
            "CancelReservation"@,
            seq![("command_id"@, str_debug_text(command_id@)), ("reservation_id"@, int_to_decimal(reservation_id as int))],
        ),
        DeviceCommand::DataTransfer { command_id, vendor_id, message_id, .. } => struct_text(
            "DataTransfer"@,
            seq![
                ("command_id"@, str_debug_text(command_id@)),
                ("vendor_id"@, str_debug_text(vendor_id@)),
                ("message_id"@, debug_opt_str(message_id)),
            ],
        ),
    }
}

/// The text of a struct with these fields, as `struct_text` states it.
fn struct_string(name: &str, fields: Vec<(&'static str, String)>) -> (r: String)
    ensures
        r@ == struct_text(name@, fields@.map_values(|p: (&'static str, String)| (p.0@, p.1@))),
{
    let ghost vf = fields@.map_values(|p: (&'static str, String)| (p.0@, p.1@));
    let mut out = name.to_string();
    out.append(" { ");
    let ghost head = out@;
    let mut i: usize = 0;
    while i < fields.len()
        invariant
            vf == fields@.map_values(|p: (&'static str, String)| (p.0@, p.1@)),
            i <= fields@.len(),
            out@ == head + fields_text(vf.take(i as int)),
        decreases fields@.len() - i,
    {
        let ghost before = out@;
        if i > 0 {
            out.append(", ");
        }
        out.append(fields[i].0);
        out.append(": ");
        out.append(fields[i].1.as_str());
        proof {
            assert(vf.take(i + 1).drop_last() =~= vf.take(i as int));
            assert(vf.take(i + 1).last() == vf[i as int]);
            if i == 0 {
                assert(vf.take(0) =~= Seq::<(Seq<char>, Seq<char>)>::empty());
                assert(vf.take(1)[0] == vf[0]);
            }
            assert(out@ =~= head + fields_text(vf.take(i + 1)));
        }
        i = i + 1;
    }
    assert(vf.take(fields@.len() as int) =~= vf);
    out.append(" }");
    out
}

fn opt_i32_debug(o: Option<i32>) -> (r: String)
    ensures
        r@ == debug_opt_i32(o),
{
    match o {
        Some(x) => {
            let mut t = "Some(".to_string();
            let d = format_i32(x);
            t.append(d.as_str());
            t.append(")");
            t
        },
        None => "None".to_string(),
    }
}

fn opt_str_debug(o: &Option<String>) -> (r: String)
    ensures
        r@ == debug_opt_str(*o),
{
    match o {
        Some(x) => {
            let mut t = "Some(".to_string();
            let d = str_debug(x.as_str());
            t.append(d.as_str());
            t.append(")");
            t
        },
        None => "None".to_string(),
    }
}

fn timestamp_string(t: Timestamp) -> (r: String)
    ensures
        r@ == timestamp_debug_text(t),
{
    let ghost secs_spec = t / 1_000_000_000;
    let ghost nanos_spec = t % 1_000_000_000;
    let (secs, nanos): (i128, i128) = if t >= 0 {
        (t / NANOS_PER_SECOND, t % NANOS_PER_SECOND)
    } else {
        let m: u128 = ((-(t + 1)) as u128) + 1;
        let q: u128 = m / 1_000_000_000;
        let rem: u128 = m % 1_000_000_000;
        proof {
            assert(m == q * 1_000_000_000 + rem);
        }
        if rem == 0 {
            proof {
                vstd::arithmetic::div_mod::lemma_fundamental_div_mod_converse(t as int, 1_000_000_000, -(q as int), 0);
            }
            (-(q as i128), 0)
        } else {
            proof {
                vstd::arithmetic::div_mod::lemma_fundamental_div_mod_converse(
                    t as int,
                    1_000_000_000,
                    -(q as int) - 1,
                    1_000_000_000 - rem,
                );
            }
            (-(q as i128) - 1, (1_000_000_000 - rem) as i128)
        }
    };
    proof {
        if t >= 0 {
            vstd::arithmetic::div_mod::lemma_fundamental_div_mod(t as int, 1_000_000_000);
        }
        assert(secs == secs_spec);
        assert(nanos == nanos_spec);
    }
    if secs < i64::MIN as i128 || secs > i64::MAX as i128 {
        return format_i128(t);
    }
    match datetime_debug(secs as i64, nanos as u32) {
        Some(text) => text,
        None => format_i128(t),
    }
}

impl DeviceCommand {
    /// How this command is shown in logs: its name and the fields that
    /// identify it, as `{:?}` shows them.
    pub fn redacted_text(&self) -> (r: String)
        ensures
            r@ == command_text(*self),
    {
        match self {
            DeviceCommand::StartCharging { command_id, connector_id, id_tag } => {
                let v0 = str_debug(command_id.as_str());
                let v1 = opt_i32_debug(*connector_id);
                let v2 = str_debug(id_tag.as_str());
                let ghost g = seq![("command_id"@, v0@), ("connector_id"@, v1@), ("id_tag"@, v2@)];
                let f = vec![("command_id", v0), ("connector_id", v1), ("id_tag", v2)];
                proof {
                    assert(f@.map_values(|p: (&'static str, String)| (p.0@, p.1@)) =~= g);
                }
                let r = struct_string("StartCharging", f);
                proof {
                    assert(r@ == command_text(*self));
                }
                r
            },
            DeviceCommand::StopCharging { command_id, transaction_id } => {
                let v0 = str_debug(command_id.as_str());
                let v1 = format_i32(*transaction_id);
                let ghost g = seq![("command_id"@, v0@), ("transaction_id"@, v1@)];
                let f = vec![("command_id", v0), ("transaction_id", v1)];
                proof {
                    assert(f@.map_values(|p: (&'static str, String)| (p.0@, p.1@)) =~= g);
                }
                let r = struct_string("StopCharging", f);
                proof {
                    assert(r@ == command_text(*self));
                }
                r
            },
            DeviceCommand::Unlock { command_id, connector_id } => {
                let v0 = str_debug(command_id.as_str());
                let v1 = format_i32(*connector_id);
                let ghost g = seq![("command_id"@, v0@), ("connector_id"@, v1@)];
                let f = vec![("command_id", v0), ("connector_id", v1)];
                proof {
                    assert(f@.map_values(|p: (&'static str, String)| (p.0@, p.1@)) =~= g);
                }
                let r = struct_string("Unlock", f);
                proof {
                    assert(r@ == command_text(*self));
                }
                r
            },
            DeviceCommand::Reboot { command_id, hard } => {
                let v0 = str_debug(command_id.as_str());
                let v1 = if *hard {
                    "true".to_string()
                } else {
                    "false".to_string()
                };
                let ghost g = seq![("command_id"@, v0@), ("hard"@, v1@)];
                let f = vec![("command_id", v0), ("hard", v1)];
                proof {
                    assert(f@.map_values(|p: (&'static str, String)| (p.0@, p.1@)) =~= g);
                }
                let r = struct_string("Reboot", f);
                proof {
                    assert(r@ == command_text(*self));
                }
                r
            },
            DeviceCommand::SetConfig { command_id, key, value } => {
                let v0 = str_debug(command_id.as_str());
                let v1 = str_debug(key.as_str());
                let v2 = str_debug(value.as_str());
                let ghost g = seq![("command_id"@, v0@), ("key"@, v1@), ("value"@, v2@)];
                let f = vec![("command_id", v0), ("key", v1), ("value", v2)];
                proof {
                    assert(f@.map_values(|p: (&'static str, String)| (p.0@, p.1@)) =~= g);
                }
                let r = struct_string("SetConfig", f);
                proof {
                    assert(r@ == command_text(*self));
                }
                r
            },
            DeviceCommand::SetAvailability { command_id, connector_id, availability_type } => {
                let v0 = str_debug(command_id.as_str());
                let v1 = format_i32(*connector_id);
                let v2 = match availability_type {
                    AvailabilityType::Inoperative => "Inoperative".to_string(),
                    AvailabilityType::Operative => "Operative".to_string(),
                };
                let ghost g = seq![("command_id"@, v0@), ("connector_id"@, v1@), ("type"@, v2@)];
                let f = vec![("command_id", v0), ("connector_id", v1), ("type", v2)];
                proof {
                    assert(f@.map_values(|p: (&'static str, String)| (p.0@, p.1@)) =~= g);
                }
                let r = struct_string("SetAvailability", f);
                proof {
                    assert(r@ == command_text(*self));
                }
                r
            },
            DeviceCommand::UpdateFirmware { location, retrieve_date, .. } => {
                let v0 = str_debug(location.as_str());
                let v1 = timestamp_string(*retrieve_date);
                let ghost g = seq![("location"@, v0@), ("retrieve_date"@, v1@)];
                let f = vec![("location", v0), ("retrieve_date", v1)];
                proof {
                    assert(f@.map_values(|p: (&'static str, String)| (p.0@, p.1@)) =~= g);
                }
                let r = struct_string("UpdateFirmware", f);
                proof {
                    assert(r@ == command_text(*self));
                }
                r
            },
            DeviceCommand::GetDiagnostics { command_id, location, .. } => {
                let v0 = str_debug(command_id.as_str());
                let v1 = str_debug(location.as_str());
                let ghost g = seq![("command_id"@, v0@), ("location"@, v1@)];
                let f = vec![("command_id", v0), ("location", v1)];
                proof {
                    assert(f@.map_values(|p: (&'static str, String)| (p.0@, p.1@)) =~= g);
                }
                let r = struct_string("GetDiagnostics", f);
                proof {
                    assert(r@ == command_text(*self));
                }
                r
            },
            DeviceCommand::ClearCache { command_id } => {
                let v0 = str_debug(command_id.as_str());
                let ghost g = seq![("command_id"@, v0@)];
                let f = vec![("command_id", v0)];
                proof {
                    assert(f@.map_values(|p: (&'static str, String)| (p.0@, p.1@)) =~= g);
                }
                let r = struct_string("ClearCache", f);
                proof {
                    assert(r@ == command_text(*self));
                }
                r
            },
            DeviceCommand::ReserveNow { command_id, connector_id, id_tag, reservation_id, .. } => {
                let v0 = str_debug(command_id.as_str());
                let v1 = format_i32(*connector_id);
                let v2 = str_debug(id_tag.as_str());
                let v3 = format_i32(*reservation_id);
                let ghost g = seq![("command_id"@, v0@), ("connector_id"@, v1@), ("id_tag"@, v2@), ("reservation_id"@, v3@)];
                let f = vec![("command_id", v0), ("connector_id", v1), ("id_tag", v2), ("reservation_id", v3)];
                proof {
                    assert(f@.map_values(|p: (&'static str, String)| (p.0@, p.1@)) =~= g);
                }
                let r = struct_string("ReserveNow", f);
                proof {
                    assert(r@ == command_text(*self));
                }
                r
            },
            DeviceCommand::CancelReservation { command_id, reservation_id } => {
                let v0 = str_debug(command_id.as_str());
                let v1 = format_i32(*reservation_id);
                let ghost g = seq![("command_id"@, v0@), ("reservation_id"@, v1@)];
                let f = vec![("command_id", v0), ("reservation_id", v1)];
                proof {
                    assert(f@.map_values(|p: (&'static str, String)| (p.0@, p.1@)) =~= g);
                }
                let r = struct_string("CancelReservation", f);
                proof {
                    assert(r@ == command_text(*self));
                }
                r
            },
            DeviceCommand::DataTransfer { command_id, vendor_id, message_id, .. } => {
                let v0 = str_debug(command_id.as_str());
                let v1 = str_debug(vendor_id.as_str());
                let v2 = opt_str_debug(message_id);
                let ghost g = seq![("command_id"@, v0@), ("vendor_id"@, v1@), ("message_id"@, v2@)];
                let f = vec![("command_id", v0), ("vendor_id", v1), ("message_id", v2)];
                proof {
                    assert(f@.map_values(|p: (&'static str, String)| (p.0@, p.1@)) =~= g);
                }
                let r = struct_string("DataTransfer", f);
                proof {
                    assert(r@ == command_text(*self));
                }
                r
            },
        }
    }
}

} // verus!
