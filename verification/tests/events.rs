use ocpp_gateway::enums::AvailabilityType;
use ocpp_gateway::events::DeviceCommand;
use ocpp_gateway::frame::Frame;
use ocpp_gateway::json::{JsonNumber, JsonValue};
use ocpp_gateway::messages::NANOS_PER_SECOND;
use ocpp_gateway::text::format_i128;

#[test]
fn reboot_text_shows_its_fields() {
    let c = DeviceCommand::Reboot { command_id: "c1".to_string(), hard: true };
    assert_eq!(c.redacted_text(), r#"Reboot { command_id: "c1", hard: true }"#);
}

#[test]
fn start_charging_text_shows_optional_connector() {
    let with = DeviceCommand::StartCharging {
        command_id: "c2".to_string(),
        connector_id: Some(1),
        id_tag: "TAG".to_string(),
    };
    assert_eq!(
        with.redacted_text(),
        r#"StartCharging { command_id: "c2", connector_id: Some(1), id_tag: "TAG" }"#
    );
    let without = DeviceCommand::StartCharging {
        command_id: "c2".to_string(),
        connector_id: None,
        id_tag: "TAG".to_string(),
    };
    assert_eq!(
        without.redacted_text(),
        r#"StartCharging { command_id: "c2", connector_id: None, id_tag: "TAG" }"#
    );
}

#[test]
fn firmware_text_leaves_out_retries() {
    let c = DeviceCommand::UpdateFirmware {
        location: "ftp://x/fw.bin".to_string(),
        retrieve_date: 1_704_067_200 * NANOS_PER_SECOND,
        retries: Some(3),
        retry_interval: Some(60),
    };
    assert_eq!(
        c.redacted_text(),
        r#"UpdateFirmware { location: "ftp://x/fw.bin", retrieve_date: 2024-01-01T00:00:00Z }"#
    );
}

#[test]
fn data_transfer_text_leaves_out_data() {
    let c = DeviceCommand::DataTransfer {
        command_id: "c3".to_string(),
        vendor_id: "acme".to_string(),
        message_id: Some("m\"1".to_string()),
        data: Some("secret payload".to_string()),
    };
    let t = c.redacted_text();
    assert_eq!(t, r#"DataTransfer { command_id: "c3", vendor_id: "acme", message_id: Some("m\"1") }"#);
    assert!(!t.contains("secret"));
}

#[test]
fn availability_text_names_the_type() {
    let c = DeviceCommand::SetAvailability {
        command_id: "c4".to_string(),
        connector_id: 2,
        availability_type: AvailabilityType::Inoperative,
    };
    assert_eq!(
        c.redacted_text(),
        r#"SetAvailability { command_id: "c4", connector_id: 2, type: Inoperative }"#
    );
}

#[test]
fn wide_integers_print_in_decimal() {
    assert_eq!(format_i128(i128::MIN), i128::MIN.to_string());
    assert_eq!(format_i128(-1_704_067_200_000_000_000), "-1704067200000000000");
    assert_eq!(format_i128(0), "0");
}

#[test]
fn parsed_objects_hold_sorted_names() {
    let f = Frame::from_text(r#"[3,"u1",{"b":1,"a":-2,"c":[]}]"#).unwrap();
    match f {
        Frame::Result(r) => match r.payload {
            JsonValue::Object(m) => {
                let names: Vec<&str> = m.iter().map(|(k, _)| k.as_str()).collect();
                assert_eq!(names, vec!["a", "b", "c"]);
                assert_eq!(m[0].1, JsonValue::Number(JsonNumber::NegInt(-2)));
                assert_eq!(m[1].1, JsonValue::Number(JsonNumber::PosInt(1)));
            },
            other => panic!("not an object: {:?}", other),
        },
        other => panic!("not a result: {:?}", other),
    }
}
