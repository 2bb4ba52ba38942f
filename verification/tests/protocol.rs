use ocpp_gateway::action::Action;
use ocpp_gateway::error::{CallErrorCode, ProtocolError};
use ocpp_gateway::frame::{Call, CallError, CallResult, Frame, MessageTypeId};
use ocpp_gateway::json::{JsonNumber, JsonValue};
use ocpp_gateway::version::{Ocpp16, OcppVersion};

fn obj(members: Vec<(&str, JsonValue)>) -> JsonValue {
    JsonValue::Object(members.into_iter().map(|(k, v)| (k.to_string(), v)).collect())
}

fn s(t: &str) -> JsonValue {
    JsonValue::String(t.to_string())
}

fn n(u: u64) -> JsonValue {
    JsonValue::Number(JsonNumber::PosInt(u))
}

#[test]
fn round_trip_call() {
    let raw = r#"[2,"abc","Heartbeat",{}]"#;
    let f = Frame::from_text(raw).unwrap();
    assert_eq!(f.unique_id(), "abc");
    assert_eq!(f.to_text().unwrap(), raw);
}

#[test]
fn round_trip_call_result() {
    let raw = r#"[3,"abc",{"currentTime":"2024-01-01T00:00:00Z"}]"#;
    let f = Frame::from_text(raw).unwrap();
    assert!(matches!(f, Frame::Result(_)));
    assert_eq!(f.to_text().unwrap(), raw);
}

#[test]
fn round_trip_call_error() {
    let raw = r#"[4,"abc","NotImplemented","nope",{}]"#;
    let f = Frame::from_text(raw).unwrap();
    assert!(matches!(f, Frame::Error(_)));
    assert_eq!(f.to_text().unwrap(), raw);
}

#[test]
fn all_actions_round_trip_in_ocpp_j_frame_shapes() {
    let boot = Frame::Call(Call {
        unique_id: "1".to_string(),
        action: Action::BootNotification.as_str().to_string(),
        payload: obj(vec![("chargePointModel", s("Codex-CP")), ("chargePointVendor", s("OpenAI"))]),
    });
    let back = Frame::from_json(boot.to_json()).unwrap();
    assert_eq!(back, boot);
    let result = Frame::Result(CallResult {
        unique_id: "1".to_string(),
        payload: obj(vec![
            ("currentTime", s("2026-04-28T00:00:00Z")),
            ("interval", n(60)),
            ("status", s("Accepted")),
        ]),
    });
    assert_eq!(Frame::from_json(result.to_json()).unwrap(), result);
    let authorize = Frame::Call(Call {
        unique_id: "2".to_string(),
        action: Action::Authorize.as_str().to_string(),
        payload: obj(vec![("idTag", s("VALID-TAG"))]),
    });
    assert_eq!(Frame::from_json(authorize.to_json()).unwrap(), authorize);

    for action in [
        "BootNotification",
        "Heartbeat",
        "Authorize",
        "StartTransaction",
        "StopTransaction",
        "MeterValues",
        "StatusNotification",
        "DataTransfer",
        "RemoteStartTransaction",
        "RemoteStopTransaction",
        "TriggerMessage",
        "Reset",
        "ChangeConfiguration",
        "GetConfiguration",
        "UnlockConnector",
        "ChangeAvailability",
        "UpdateFirmware",
        "FirmwareStatusNotification",
        "GetDiagnostics",
        "DiagnosticsStatusNotification",
        "ClearCache",
        "GetLocalListVersion",
        "SendLocalList",
        "ReserveNow",
        "CancelReservation",
        "SetChargingProfile",
        "ClearChargingProfile",
        "GetCompositeSchedule",
    ] {
        let parsed = Action::parse(action).unwrap_or_else(|| panic!("missing action {action}"));
        assert_eq!(parsed.as_str(), action);
    }
}

#[test]
fn unknown_action_names_are_refused() {
    assert_eq!(Action::parse("Heartbeats"), None);
    assert_eq!(Action::parse(""), None);
    assert_eq!(Action::parse("heartbeat"), None);
}

#[test]
fn message_type_ids_have_their_wire_numbers() {
    assert_eq!(MessageTypeId::Call.value(), 2);
    assert_eq!(MessageTypeId::CallResult.value(), 3);
    assert_eq!(MessageTypeId::CallError.value(), 4);
}

#[test]
fn frame_errors_name_what_is_wrong() {
    assert!(matches!(Frame::from_json(obj(vec![])), Err(ProtocolError::NotAnArray)));
    assert!(matches!(Frame::from_json(JsonValue::Array(vec![])), Err(ProtocolError::EmptyFrame)));
    assert!(matches!(
        Frame::from_json(JsonValue::Array(vec![s("2"), s("a")])),
        Err(ProtocolError::BadMessageTypeId)
    ));
    assert!(matches!(
        Frame::from_json(JsonValue::Array(vec![n(5), s("a"), obj(vec![])])),
        Err(ProtocolError::BadMessageTypeId)
    ));
    assert!(matches!(
        Frame::from_json(JsonValue::Array(vec![n(2), s("a"), s("Heartbeat")])),
        Err(ProtocolError::BadFrameShape(_))
    ));
    assert!(matches!(
        Frame::from_json(JsonValue::Array(vec![n(2), n(7), s("Heartbeat"), obj(vec![])])),
        Err(ProtocolError::BadUniqueId)
    ));
    assert!(matches!(
        Frame::from_json(JsonValue::Array(vec![n(2), s("a"), n(7), obj(vec![])])),
        Err(ProtocolError::BadAction)
    ));
    assert!(matches!(
        Frame::from_json(JsonValue::Array(vec![n(3), s("a")])),
        Err(ProtocolError::BadFrameShape(_))
    ));
    assert!(matches!(
        Frame::from_json(JsonValue::Array(vec![n(4), s("a"), s("GenericError"), s("x")])),
        Err(ProtocolError::BadFrameShape(_))
    ));
    assert!(matches!(Frame::from_text("[2,"), Err(ProtocolError::Json(_))));
    assert!(matches!(Frame::from_text("{}"), Err(ProtocolError::NotAnArray)));
}

#[test]
fn only_two_three_and_four_are_message_types() {
    for bad in [0u64, 1, 5, 258, 259, 260, u64::MAX] {
        assert!(matches!(
            Frame::from_json(JsonValue::Array(vec![n(bad), s("a"), s("Heartbeat"), obj(vec![])])),
            Err(ProtocolError::BadMessageTypeId)
        ));
    }
    assert!(matches!(Frame::from_text(r#"[258,"a","Heartbeat",{}]"#), Err(ProtocolError::BadMessageTypeId)));
    assert!(matches!(Frame::from_text(r#"[-2,"a","Heartbeat",{}]"#), Err(ProtocolError::BadMessageTypeId)));
    assert!(matches!(Frame::from_text(r#"[2.0,"a","Heartbeat",{}]"#), Err(ProtocolError::BadMessageTypeId)));
}

#[test]
fn frame_text_keeps_numbers_and_nesting() {
    let raw = r#"[2,"7","MeterValues",{"a":[-3,1.5,{"b":null}],"c":true}]"#;
    let f = Frame::from_text(raw).unwrap();
    assert_eq!(f.to_text().unwrap(), raw);
}

#[test]
fn call_error_with_unknown_code_reads_as_generic() {
    let f = Frame::from_json(JsonValue::Array(vec![n(4), s("x"), s("Nonsense"), n(1), JsonValue::Null])).unwrap();
    match f {
        Frame::Error(CallError { unique_id, error_code, error_description, error_details }) => {
            assert_eq!(unique_id, "x");
            assert_eq!(error_code, CallErrorCode::GenericError);
            assert_eq!(error_description, "");
            assert_eq!(error_details, JsonValue::Null);
        }
        _ => panic!("expected a CALLERROR"),
    }
}

#[test]
fn call_error_codes_round_trip() {
    let codes = [
        CallErrorCode::NotImplemented,
        CallErrorCode::NotSupported,
        CallErrorCode::InternalError,
        CallErrorCode::ProtocolError,
        CallErrorCode::SecurityError,
        CallErrorCode::FormationViolation,
        CallErrorCode::PropertyConstraintViolation,
        CallErrorCode::OccurenceConstraintViolation,
        CallErrorCode::TypeConstraintViolation,
        CallErrorCode::GenericError,
    ];
    for c in codes {
        assert_eq!(CallErrorCode::from_str(c.as_str()), Ok(c));
    }
    assert_eq!(CallErrorCode::InternalError.as_str(), "InternalError");
    assert_eq!(CallErrorCode::from_str("internalerror"), Err(()));
    assert_eq!("SecurityError".parse::<CallErrorCode>(), Ok(CallErrorCode::SecurityError));
}

#[test]
fn ocpp16_subprotocol_name() {
    assert_eq!(Ocpp16::subprotocol(), "ocpp1.6");
}
