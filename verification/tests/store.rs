use ocpp_gateway::enums::AuthorizationStatus;
use ocpp_gateway::json::JsonValue;
use ocpp_gateway::messages::{AuthorizationData, IdTagInfo};
use ocpp_gateway::store::auth::{
    cache_key, cache_prefix, decode_list_version, encode_list_version, list_key, list_prefix,
    local_list_updates, version_key, ListUpdate,
};
use ocpp_gateway::store::config::{config_key, config_prefix, strip_config_prefix};
use ocpp_gateway::store::profiles::{connector_prefix, profile_key, profile_key_connector};
use ocpp_gateway::store::queue::{queue_id, queue_key, PendingCall};
use ocpp_gateway::store::reservations::{
    active_reservations, find_reservation, is_expired, reservation_key, Reservation,
};
use ocpp_gateway::store::state::{boot_key, tx_key, tx_prefix};

fn accepted() -> IdTagInfo {
    IdTagInfo { status: AuthorizationStatus::Accepted, expiry_date: None, parent_id_tag: None }
}

fn reservation(connector_id: i32, reservation_id: i32, expiry: i128) -> Reservation {
    Reservation {
        connector_id,
        expiry_date: expiry,
        id_tag: format!("TAG-{reservation_id}"),
        reservation_id,
        parent_id_tag: None,
    }
}

#[test]
fn queue_keys_are_big_endian_ids() {
    assert_eq!(queue_key(1), vec![0, 0, 0, 0, 0, 0, 0, 1]);
    assert_eq!(queue_key(0x0102_0304_0506_0708), vec![1, 2, 3, 4, 5, 6, 7, 8]);
    assert_eq!(queue_key(u64::MAX), vec![255; 8]);
}

#[test]
fn queue_keys_sort_in_id_order() {
    let ids = [0u64, 1, 255, 256, 65_535, 65_536, 1 << 40, u64::MAX - 1, u64::MAX];
    for w in ids.windows(2) {
        assert!(queue_key(w[0]) < queue_key(w[1]), "{} before {}", w[0], w[1]);
    }
}

#[test]
fn queue_ids_read_back_from_keys() {
    for id in [0u64, 7, 300, 1 << 33, u64::MAX] {
        assert_eq!(queue_id(&queue_key(id)), id);
    }
    let mut longer = queue_key(42);
    longer.extend_from_slice(&[9, 9]);
    assert_eq!(queue_id(&longer), 42);
    // A short key is read as if padded with zeros at the end.
    assert_eq!(queue_id(&[1, 2]), 0x0102_0000_0000_0000);
    assert_eq!(queue_id(&[]), 0);
}

#[test]
fn failed_sends_are_queued_only_with_a_payload() {
    let c = PendingCall::for_failed_send("MeterValues", Some(JsonValue::Null)).unwrap();
    assert_eq!(c.action, "MeterValues");
    assert_eq!(c.payload, JsonValue::Null);
    assert_eq!(PendingCall::for_failed_send("MeterValues", None), None);
}

#[test]
fn list_versions_round_trip() {
    for v in [0, 1, 42, 256, i32::MAX, -1, i32::MIN] {
        let bytes = encode_list_version(v);
        assert_eq!(bytes.len(), 4);
        assert_eq!(decode_list_version(Some(&bytes)), Ok(v));
    }
    assert_eq!(encode_list_version(258), vec![0, 0, 1, 2]);
}

#[test]
fn missing_list_version_is_zero_and_bad_one_is_an_error() {
    assert_eq!(decode_list_version(None), Ok(0));
    assert_eq!(decode_list_version(Some(&[1, 2, 3])), Err(()));
    assert_eq!(decode_list_version(Some(&[0, 0, 0, 0, 1])), Err(()));
}

#[test]
fn auth_keys_use_their_prefixes() {
    assert_eq!(list_prefix(), "auth/");
    assert_eq!(cache_prefix(), "cache/");
    assert_eq!(version_key(), "version");
    assert_eq!(list_key("TAG1"), "auth/TAG1");
    assert_eq!(cache_key("TAG1"), "cache/TAG1");
}

#[test]
fn local_list_entries_put_or_remove() {
    let entries = vec![
        AuthorizationData { id_tag: "A".into(), id_tag_info: Some(accepted()) },
        AuthorizationData { id_tag: "B".into(), id_tag_info: None },
    ];
    let ups = local_list_updates(entries);
    assert_eq!(
        ups,
        vec![
            ListUpdate::Put { key: "auth/A".into(), info: accepted() },
            ListUpdate::Remove { key: "auth/B".into() },
        ]
    );
}

#[test]
fn config_keys_round_trip() {
    assert_eq!(config_prefix(), "config/");
    assert_eq!(config_key("HeartbeatInterval"), "config/HeartbeatInterval");
    assert_eq!(strip_config_prefix(&config_key("HeartbeatInterval")), "HeartbeatInterval");
    assert_eq!(strip_config_prefix("other/x"), "other/x");
    assert_eq!(strip_config_prefix("config"), "config");
}

#[test]
fn profile_keys_name_their_connector() {
    assert_eq!(profile_key(1, 42), "1:42");
    assert_eq!(profile_key(-3, 7), "-3:7");
    assert_eq!(connector_prefix(Some(2)), "2:");
    assert_eq!(connector_prefix(None), "");
    assert_eq!(profile_key_connector(&profile_key(12, 5)), Some(12));
    assert_eq!(profile_key_connector(&profile_key(-3, 7)), Some(-3));
    assert_eq!(profile_key_connector("12"), None);
    assert_eq!(profile_key_connector("1:2:3"), None);
    assert_eq!(profile_key_connector("x:2"), None);
    assert_eq!(profile_key_connector(":2"), None);
}

#[test]
fn state_keys() {
    assert_eq!(boot_key(), "boot");
    assert_eq!(tx_prefix(), "tx/");
    assert_eq!(tx_key(17), "tx/17");
    assert_eq!(tx_key(-2), "tx/-2");
}

#[test]
fn reservations_expire_after_their_date() {
    let r = reservation(1, 10, 1000);
    assert_eq!(reservation_key(1), "1");
    assert!(!is_expired(&r, 999));
    assert!(!is_expired(&r, 1000));
    assert!(is_expired(&r, 1001));
    let kept = active_reservations(vec![reservation(1, 10, 1000), reservation(2, 11, 500), reservation(3, 12, 2000)], 800);
    assert_eq!(kept.iter().map(|r| r.reservation_id).collect::<Vec<_>>(), vec![10, 12]);
}

#[test]
fn reservations_are_found_by_id() {
    let all = vec![reservation(1, 10, 1000), reservation(2, 11, 500), reservation(3, 11, 2000)];
    assert_eq!(find_reservation(all.clone(), 11).map(|r| r.connector_id), Some(2));
    assert_eq!(find_reservation(all.clone(), 10).map(|r| r.connector_id), Some(1));
    assert_eq!(find_reservation(all, 99), None);
}
