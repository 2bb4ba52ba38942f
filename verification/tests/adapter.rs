use ocpp_gateway::charge_point::{triggered_report, TriggeredReport};
use ocpp_gateway::connectivity::ConnectivityManager;
use ocpp_gateway::device::DeviceError;
use ocpp_gateway::enums::{
    AuthorizationStatus, AvailabilityStatus, CancelReservationStatus, ChargePointErrorCode,
    ChargePointStatus, ChargingProfileKind, ChargingProfilePurpose, ChargingRateUnit,
    ClearChargingProfileStatus, ConfigurationStatus, DataTransferStatus, DiagnosticsStatus,
    FirmwareStatus, GetCompositeScheduleStatus, Measurand, MessageTrigger, ReadingContext,
    RegistrationStatus, RemoteStartStopStatus, ReservationStatus, ResetStatus, ResetType,
    StopReason, TriggerMessageStatus, UnitOfMeasure, UnlockStatus, UpdateType,
};
use ocpp_gateway::events::DeviceAck::{Accepted, Failed, NotSupported, Rejected};
use ocpp_gateway::events::{DeviceAck, DeviceCommand, DeviceEvent, MeterSample};
use ocpp_gateway::gateway::{
    charge_point_url, default_call_timeout, default_topic_prefix, device_plan, mqtt_device_config,
    ChargePointEntry, DeviceBackendConfig, DevicePlan, MqttBrokerConfig, SupervisorError,
};
use ocpp_gateway::handler::{
    availability_status, cancel_reservation_status, clear_charging_profile_status, clear_matches,
    composite_schedule_at, configuration_for_all, configuration_for_keys, configuration_status,
    data_transfer_response, is_full_update, profiles_to_clear, remote_start_stop_status,
    reserve_now_outcome, reset_command, reset_status, trigger_message_status, unlock_status,
};
use ocpp_gateway::messages::{
    BootNotificationResponse, ChargingProfile, ChargingSchedule, ChargingSchedulePeriod,
    ClearChargingProfileRequest, GetCompositeScheduleRequest, IdTagInfo, ReserveNowRequest,
    StartTransactionResponse,
};
use ocpp_gateway::metadata::{MetadataManager, Notification};
use ocpp_gateway::mqtt::MqttDeviceConfig;
use ocpp_gateway::store::reservations::Reservation;
use ocpp_gateway::store::state::{ActiveTransaction, PendingStop};
use ocpp_gateway::transaction::{ReservationCheck, StartFlow, StartInput, StartOutcome, StartStep, TransactionManager};

fn info(status: AuthorizationStatus, parent: Option<&str>) -> IdTagInfo {
    IdTagInfo { status, expiry_date: None, parent_id_tag: parent.map(|p| p.to_string()) }
}

fn reservation(connector_id: i32, id_tag: &str, reservation_id: i32) -> Reservation {
    Reservation { connector_id, expiry_date: 10_000, id_tag: id_tag.into(), reservation_id, parent_id_tag: None }
}

fn tx(id: i32, connector_id: i32, pending: Option<PendingStop>) -> ActiveTransaction {
    ActiveTransaction {
        transaction_id: id,
        connector_id,
        id_tag: format!("TAG{id}"),
        meter_start: 100,
        started_at: 1_000,
        pending_stop: pending,
    }
}

fn stop(meter: i32) -> PendingStop {
    PendingStop { meter_stop: meter, timestamp: 2_000, reason: Some(StopReason::Local) }
}

fn profile(id: i32, purpose: ChargingProfilePurpose, stack: i32, limit: f64, start: i128) -> ChargingProfile<f64> {
    ChargingProfile {
        charging_profile_id: id,
        transaction_id: None,
        stack_level: stack,
        charging_profile_purpose: purpose,
        charging_profile_kind: ChargingProfileKind::Absolute,
        recurrency_kind: None,
        valid_from: None,
        valid_to: None,
        charging_schedule: ChargingSchedule {
            duration: None,
            start_schedule: Some(start),
            charging_rate_unit: ChargingRateUnit::W,
            charging_schedule_period: vec![ChargingSchedulePeriod { start_period: 0, limit, number_phases: None }],
            min_charging_rate: None,
        },
    }
}

#[test]
fn config_flags_read_true_only_from_true() {
    assert!(TransactionManager::config_flag(Some("true".into()), false));
    assert!(!TransactionManager::config_flag(Some("TRUE".into()), true));
    assert!(!TransactionManager::config_flag(Some("1".into()), true));
    assert!(TransactionManager::config_flag(None, true));
    assert!(!TransactionManager::config_flag(None, false));
}

#[test]
fn only_accepted_authorizations_count() {
    assert!(TransactionManager::authorization_accepted(&info(AuthorizationStatus::Accepted, None)));
    assert!(!TransactionManager::authorization_accepted(&info(AuthorizationStatus::Blocked, None)));
    assert!(!TransactionManager::authorization_accepted(&info(AuthorizationStatus::Expired, None)));
}

#[test]
fn reservations_decide_who_may_start() {
    let ok = info(AuthorizationStatus::Accepted, Some("PARENT"));
    assert_eq!(TransactionManager::check_reservation(None, None, "A", &ok), ReservationCheck::Free);
    assert_eq!(
        TransactionManager::check_reservation(Some(reservation(1, "A", 7)), None, "A", &ok),
        ReservationCheck::Claim(7)
    );
    assert_eq!(
        TransactionManager::check_reservation(Some(reservation(1, "PARENT", 8)), None, "A", &ok),
        ReservationCheck::Claim(8)
    );
    assert_eq!(
        TransactionManager::check_reservation(Some(reservation(1, "B", 9)), Some(reservation(0, "A", 3)), "A", &ok),
        ReservationCheck::ReservedForOther
    );
    assert_eq!(
        TransactionManager::check_reservation(None, Some(reservation(0, "A", 3)), "A", &ok),
        ReservationCheck::Claim(3)
    );
}

#[test]
fn start_and_stop_requests_carry_their_fields() {
    let req = TransactionManager::start_request(2, "TAG", 150, Some(4), 5_000);
    assert_eq!((req.connector_id, req.id_tag.as_str(), req.meter_start, req.reservation_id, req.timestamp), (2, "TAG", 150, Some(4), 5_000));
    let stop_req = TransactionManager::stop_request(9, 300, Some(StopReason::EVDisconnected), 6_000);
    assert_eq!(stop_req.transaction_id, 9);
    assert_eq!(stop_req.meter_stop, 300);
    assert_eq!(stop_req.reason, Some(StopReason::EVDisconnected));
    assert_eq!(stop_req.timestamp, 6_000);
    assert_eq!(stop_req.id_tag, None);
    assert!(stop_req.transaction_data.is_none());
}

#[test]
fn accepted_start_becomes_active_and_stop_removes_it() {
    let mut m = TransactionManager::new("CP-1".into(), vec![tx(1, 1, None)]);
    assert_eq!(m.cp_id(), "CP-1");
    m.add_active(tx(5, 2, None));
    assert_eq!(m.active(), &vec![tx(1, 1, None), tx(5, 2, None)]);
    assert_eq!(m.transaction_on_connector(2), Some(5));
    assert_eq!(m.transaction_on_connector(3), None);
    m.on_stop_delivered(5);
    assert_eq!(m.active(), &vec![tx(1, 1, None)]);
    m.on_stop_delivered(42);
    assert_eq!(m.active(), &vec![tx(1, 1, None)]);
}

fn started(id: i32, status: AuthorizationStatus) -> StartInput {
    StartInput::StartAnswer {
        response: StartTransactionResponse { id_tag_info: info(status, None), transaction_id: id },
        started_at: 1_000,
    }
}

fn started_tx(id: i32) -> ActiveTransaction {
    ActiveTransaction { transaction_id: id, connector_id: 2, id_tag: "TAG5".into(), meter_start: 100, started_at: 1_000, pending_stop: None }
}

#[test]
fn start_flow_uses_the_local_list_first() {
    let (f, step) = StartFlow::begin(2, "TAG5".into(), 100, true, true);
    assert_eq!(step, StartStep::ReadListEntry);
    let (f, step) = f.next(StartInput::ListEntry(Some(info(AuthorizationStatus::Accepted, None))));
    assert_eq!(step, StartStep::ReadReservation(2));
    let (f, step) = f.next(StartInput::Reservation(None));
    assert_eq!(step, StartStep::ReadReservation(0));
    let (f, step) = f.next(StartInput::Reservation(None));
    assert_eq!(step, StartStep::SendStart(None));
    let (f, step) = f.next(started(5, AuthorizationStatus::Accepted));
    assert_eq!(step, StartStep::Persist(started_tx(5)));
    let (f, step) = f.next(StartInput::Persisted);
    assert_eq!(step, StartStep::Activate(started_tx(5)));
    let (_, step) = f.next(StartInput::Persisted);
    assert_eq!(step, StartStep::Stop(StartOutcome::OutOfOrder));
}

#[test]
fn start_flow_falls_back_to_cache_then_central_system() {
    let (f, step) = StartFlow::begin(2, "TAG5".into(), 100, true, true);
    assert_eq!(step, StartStep::ReadListEntry);
    let (f, step) = f.next(StartInput::ListEntry(None));
    assert_eq!(step, StartStep::ReadCacheEntry);
    let (f, step) = f.next(StartInput::CacheEntry(None));
    assert_eq!(step, StartStep::Authorize);
    let ok = info(AuthorizationStatus::Accepted, None);
    let (f, step) = f.next(StartInput::Authorized(ok.clone()));
    assert_eq!(step, StartStep::CacheAuthorization(ok));
    let (_, step) = f.next(StartInput::Cached);
    assert_eq!(step, StartStep::ReadReservation(2));
    // Neither source enabled: straight to the central system, and a refusal is not cached.
    let (f, step) = StartFlow::begin(2, "TAG5".into(), 100, false, false);
    assert_eq!(step, StartStep::Authorize);
    let (_, step) = f.next(StartInput::Authorized(info(AuthorizationStatus::Blocked, None)));
    assert_eq!(step, StartStep::Stop(StartOutcome::NotAuthorized));
    // Only the cache enabled.
    let (f, step) = StartFlow::begin(2, "TAG5".into(), 100, false, true);
    assert_eq!(step, StartStep::ReadCacheEntry);
    let (_, step) = f.next(StartInput::CacheEntry(Some(info(AuthorizationStatus::Expired, None))));
    assert_eq!(step, StartStep::Stop(StartOutcome::NotAuthorized));
}

#[test]
fn start_flow_honours_reservations() {
    let ok = info(AuthorizationStatus::Accepted, Some("PARENT"));
    // A reservation on the connector for the tag's parent is claimed, then cleared.
    let (f, _) = StartFlow::begin(2, "TAG5".into(), 100, false, false);
    let (f, _) = f.next(StartInput::Authorized(ok.clone()));
    let (f, _) = f.next(StartInput::Cached);
    let (f, step) = f.next(StartInput::Reservation(Some(reservation(2, "PARENT", 8))));
    assert_eq!(step, StartStep::SendStart(Some(8)));
    let (f, step) = f.next(started(6, AuthorizationStatus::Accepted));
    assert_eq!(step, StartStep::ClearReservations);
    let (f, step) = f.next(StartInput::ReservationsCleared);
    assert_eq!(step, StartStep::Persist(ActiveTransaction { transaction_id: 6, ..started_tx(6) }));
    let (_, step) = f.next(StartInput::Persisted);
    assert!(matches!(step, StartStep::Activate(_)));
    // A reservation on the whole charge point for another tag blocks the start.
    let (f, _) = StartFlow::begin(2, "TAG5".into(), 100, false, false);
    let (f, _) = f.next(StartInput::Authorized(ok.clone()));
    let (f, _) = f.next(StartInput::Cached);
    let (f, step) = f.next(StartInput::Reservation(None));
    assert_eq!(step, StartStep::ReadReservation(0));
    let (_, step) = f.next(StartInput::Reservation(Some(reservation(0, "OTHER", 9))));
    assert_eq!(step, StartStep::Stop(StartOutcome::ReservedForOther));
    // The central system refuses the start: nothing is persisted.
    let (f, _) = StartFlow::begin(2, "TAG5".into(), 100, false, false);
    let (f, _) = f.next(StartInput::Authorized(ok));
    let (f, _) = f.next(StartInput::Cached);
    let (f, _) = f.next(StartInput::Reservation(None));
    let (f, _) = f.next(StartInput::Reservation(None));
    let (_, step) = f.next(started(7, AuthorizationStatus::Invalid));
    assert_eq!(step, StartStep::Stop(StartOutcome::RejectedByCentral));
}

#[test]
fn undelivered_stops_are_kept_and_retried() {
    let mut m = TransactionManager::new("CP-1".into(), vec![tx(1, 1, None), tx(2, 2, None), tx(3, 3, None)]);
    assert_eq!(m.on_stop_failed(2, stop(500)), Some(tx(2, 2, Some(stop(500)))));
    assert_eq!(m.on_stop_failed(3, stop(600)), Some(tx(3, 3, Some(stop(600)))));
    assert_eq!(m.on_stop_failed(77, stop(1)), None);
    assert_eq!(m.pending_stops(), vec![(2, stop(500)), (3, stop(600))]);
    // The first retry went through, the second failed again.
    m.apply_retry_outcomes(&vec![true, false]);
    assert_eq!(m.active(), &vec![tx(1, 1, None), tx(3, 3, Some(stop(600)))]);
    m.apply_retry_outcomes(&vec![]);
    assert_eq!(m.active(), &vec![tx(1, 1, None), tx(3, 3, Some(stop(600)))]);
    m.apply_retry_outcomes(&vec![true]);
    assert_eq!(m.active(), &vec![tx(1, 1, None)]);
}

#[test]
fn meter_samples_become_meter_values() {
    let m = TransactionManager::new("CP-1".into(), vec![tx(4, 1, None)]);
    let sample = MeterSample {
        timestamp: 1_234,
        soc: Some("55.5".into()),
        voltage: None,
        current: Some("16".into()),
        power_w: None,
        energy_wh: Some(1800),
        temperature_c: Some("21.5".into()),
    };
    let req = m.meter_values_request(1, sample.clone());
    assert_eq!(req.connector_id, 1);
    assert_eq!(req.transaction_id, Some(4));
    assert_eq!(req.meter_value.len(), 1);
    let mv = &req.meter_value[0];
    assert_eq!(mv.timestamp, 1_234);
    let got: Vec<(&str, Option<Measurand>, Option<UnitOfMeasure>)> =
        mv.sampled_value.iter().map(|v| (v.value.as_str(), v.measurand, v.unit)).collect();
    assert_eq!(
        got,
        vec![
            ("55.5", Some(Measurand::SoC), Some(UnitOfMeasure::Percent)),
            ("16", Some(Measurand::CurrentImport), Some(UnitOfMeasure::A)),
            ("21.5", Some(Measurand::Temperature), Some(UnitOfMeasure::Celcius)),
            ("1800", Some(Measurand::EnergyActiveImportRegister), Some(UnitOfMeasure::Wh)),
        ]
    );
    assert!(mv.sampled_value.iter().all(|v| v.context == Some(ReadingContext::SamplePeriodic)));
    let other = m.meter_values_request(2, sample);
    assert_eq!(other.transaction_id, None);
}

#[test]
fn resumed_transactions_are_reported_charging() {
    let m = TransactionManager::new("CP-1".into(), vec![tx(11, 1, None), tx(12, 2, None)]);
    let ns = m.resume_notifications(9_000);
    assert_eq!(ns.len(), 2);
    assert_eq!(ns[0].connector_id, 1);
    assert_eq!(ns[0].status, ChargePointStatus::Charging);
    assert_eq!(ns[0].error_code, ChargePointErrorCode::NoError);
    assert_eq!(ns[0].info.as_deref(), Some("resumed tx 11"));
    assert_eq!(ns[1].info.as_deref(), Some("resumed tx 12"));
    assert_eq!(ns[1].timestamp, Some(9_000));
}

#[test]
fn device_acks_map_to_ocpp_statuses() {
    assert_eq!(reset_status(Accepted), ResetStatus::Accepted);
    assert_eq!(reset_status(NotSupported), ResetStatus::Rejected);
    assert_eq!(configuration_status(Accepted), ConfigurationStatus::Accepted);
    assert_eq!(configuration_status(Rejected), ConfigurationStatus::Rejected);
    assert_eq!(configuration_status(NotSupported), ConfigurationStatus::NotSupported);
    assert_eq!(configuration_status(Failed), ConfigurationStatus::Rejected);
    assert_eq!(unlock_status(Accepted), UnlockStatus::Unlocked);
    assert_eq!(unlock_status(Rejected), UnlockStatus::UnlockFailed);
    assert_eq!(unlock_status(Failed), UnlockStatus::UnlockFailed);
    assert_eq!(unlock_status(NotSupported), UnlockStatus::NotSupported);
    assert_eq!(availability_status(Accepted), AvailabilityStatus::Accepted);
    assert_eq!(availability_status(NotSupported), AvailabilityStatus::Rejected);
    assert_eq!(trigger_message_status(true), TriggerMessageStatus::Accepted);
    assert_eq!(trigger_message_status(false), TriggerMessageStatus::Rejected);
    assert!(is_full_update(UpdateType::Full));
    assert!(!is_full_update(UpdateType::Differential));
    assert_eq!(cancel_reservation_status(Some(Accepted)), CancelReservationStatus::Accepted);
    assert_eq!(cancel_reservation_status(Some(Rejected)), CancelReservationStatus::Rejected);
    assert_eq!(cancel_reservation_status(None), CancelReservationStatus::Rejected);
    assert_eq!(clear_charging_profile_status(true), ClearChargingProfileStatus::Accepted);
    assert_eq!(clear_charging_profile_status(false), ClearChargingProfileStatus::Unknown);
}

#[test]
fn resets_reboot_hard_only_for_hard_resets() {
    match reset_command("c1".into(), ResetType::Hard) {
        DeviceCommand::Reboot { command_id, hard } => {
            assert_eq!(command_id, "c1");
            assert!(hard);
        }
        _ => panic!("expected a reboot"),
    }
    assert!(matches!(reset_command("c2".into(), ResetType::Soft), DeviceCommand::Reboot { hard: false, .. }));
}

#[test]
fn reservations_are_recorded_only_when_accepted() {
    let req = ReserveNowRequest {
        connector_id: 1,
        expiry_date: 5_000,
        id_tag: "TAG".into(),
        parent_id_tag: Some("P".into()),
        reservation_id: 3,
    };
    let (resp, res) = reserve_now_outcome(req.clone(), DeviceAck::Accepted);
    assert_eq!(resp.status, ReservationStatus::Accepted);
    assert_eq!(
        res,
        Some(Reservation { connector_id: 1, expiry_date: 5_000, id_tag: "TAG".into(), reservation_id: 3, parent_id_tag: Some("P".into()) })
    );
    let (resp, res) = reserve_now_outcome(req.clone(), DeviceAck::Failed);
    assert_eq!(resp.status, ReservationStatus::Faulted);
    assert_eq!(res, None);
    let (resp, res) = reserve_now_outcome(req, DeviceAck::NotSupported);
    assert_eq!(resp.status, ReservationStatus::Rejected);
    assert_eq!(res, None);
}

#[test]
fn data_transfer_answers() {
    let r = data_transfer_response(Some((DeviceAck::Accepted, Some("x".into()))));
    assert_eq!((r.status, r.data.as_deref()), (DataTransferStatus::Accepted, Some("x")));
    let r = data_transfer_response(Some((DeviceAck::Rejected, None)));
    assert_eq!(r.status, DataTransferStatus::Rejected);
    let r = data_transfer_response(Some((DeviceAck::NotSupported, None)));
    assert_eq!(r.status, DataTransferStatus::UnknownVendorId);
    let r = data_transfer_response(None);
    assert_eq!((r.status, r.data), (DataTransferStatus::Rejected, None));
}

#[test]
fn configuration_lists_known_and_unknown_keys() {
    let r = configuration_for_keys(&vec![
        ("HeartbeatInterval".to_string(), Some("60".to_string())),
        ("Nope".to_string(), None),
    ]);
    let known = r.configuration_key.unwrap();
    assert_eq!(known.len(), 1);
    assert_eq!(known[0].key, "HeartbeatInterval");
    assert_eq!(known[0].value.as_deref(), Some("60"));
    assert!(!known[0].readonly);
    assert_eq!(r.unknown_key, Some(vec!["Nope".to_string()]));
    let r = configuration_for_keys(&vec![("A".to_string(), Some("1".to_string()))]);
    assert_eq!(r.unknown_key, None);
    let r = configuration_for_all(&vec![("A".to_string(), "1".to_string()), ("B".to_string(), "2".to_string())]);
    let all = r.configuration_key.unwrap();
    assert_eq!(all.iter().map(|k| k.key.as_str()).collect::<Vec<_>>(), vec!["A", "B"]);
    assert_eq!(r.unknown_key, None);
}

#[test]
fn clearing_profiles_applies_every_filter() {
    let listed = vec![
        (1, profile(10, ChargingProfilePurpose::TxProfile, 0, 16.0, 0)),
        (1, profile(11, ChargingProfilePurpose::TxDefaultProfile, 1, 16.0, 0)),
        (0, profile(12, ChargingProfilePurpose::TxDefaultProfile, 2, 16.0, 0)),
    ];
    let all = ClearChargingProfileRequest { id: None, connector_id: None, charging_profile_purpose: None, stack_level: None };
    assert_eq!(profiles_to_clear(&all, &listed), vec![(1, 10), (1, 11), (0, 12)]);
    let by_purpose = ClearChargingProfileRequest {
        id: None,
        connector_id: None,
        charging_profile_purpose: Some(ChargingProfilePurpose::TxDefaultProfile),
        stack_level: Some(2),
    };
    assert_eq!(profiles_to_clear(&by_purpose, &listed), vec![(0, 12)]);
    let by_id = ClearChargingProfileRequest { id: Some(11), connector_id: None, charging_profile_purpose: None, stack_level: None };
    assert!(clear_matches(&by_id, &listed[1].1));
    assert!(!clear_matches(&by_id, &listed[0].1));
    let none = ClearChargingProfileRequest { id: Some(99), connector_id: None, charging_profile_purpose: None, stack_level: None };
    assert!(profiles_to_clear(&none, &listed).is_empty());
}

#[test]
fn composite_schedule_reports_the_current_limit() {
    let now: i128 = 1_700_000_000_000_000_000;
    let all = vec![
        (0, profile(1, ChargingProfilePurpose::ChargePointMaxProfile, 0, 32.0, now - 10_000_000_000)),
        (2, profile(2, ChargingProfilePurpose::TxProfile, 5, 10.0, now - 10_000_000_000)),
    ];
    let req = GetCompositeScheduleRequest { connector_id: 2, duration: 3600, charging_rate_unit: None };
    let r = composite_schedule_at(&req, all.clone(), now);
    assert_eq!(r.status, GetCompositeScheduleStatus::Accepted);
    assert_eq!(r.connector_id, Some(2));
    assert_eq!(r.schedule_start, Some(now));
    let s = r.charging_schedule.unwrap();
    assert_eq!(s.duration, Some(3600));
    assert_eq!(s.start_schedule, Some(now));
    assert_eq!(s.charging_rate_unit, ChargingRateUnit::W);
    assert_eq!(s.charging_schedule_period, vec![ChargingSchedulePeriod { start_period: 0, limit: 32.0, number_phases: None }]);
    let nothing = composite_schedule_at(&GetCompositeScheduleRequest { connector_id: 3, duration: 60, charging_rate_unit: None }, vec![(2, profile(2, ChargingProfilePurpose::TxProfile, 5, 10.0, now))], now);
    assert_eq!(nothing.status, GetCompositeScheduleStatus::Rejected);
    assert_eq!(nothing.connector_id, None);
    let not_started = composite_schedule_at(&req, vec![(2, profile(2, ChargingProfilePurpose::TxProfile, 5, 10.0, now + 10_000_000_000))], now);
    assert_eq!(not_started.status, GetCompositeScheduleStatus::Rejected);
    assert!(not_started.charging_schedule.is_none());
}

#[test]
fn device_events_become_notifications() {
    let mut m = MetadataManager::new("CP-1".into());
    assert_eq!(m.cp_id(), "CP-1");
    match m.handle_event(DeviceEvent::Plugged { connector_id: 2 }, 50) {
        Some(Notification::Status(s)) => {
            assert_eq!((s.connector_id, s.status, s.error_code, s.timestamp), (2, ChargePointStatus::Preparing, ChargePointErrorCode::NoError, Some(50)));
        }
        other => panic!("unexpected {other:?}"),
    }
    match m.handle_event(DeviceEvent::Unplugged { connector_id: 2 }, 60) {
        Some(Notification::Status(s)) => assert_eq!(s.status, ChargePointStatus::Available),
        other => panic!("unexpected {other:?}"),
    }
    match m.handle_event(
        DeviceEvent::Status { connector_id: 1, status: ChargePointStatus::Faulted, error_code: ChargePointErrorCode::OverCurrentFailure, info: Some("hot".into()) },
        70,
    ) {
        Some(Notification::Status(s)) => {
            assert_eq!((s.status, s.error_code, s.info.as_deref()), (ChargePointStatus::Faulted, ChargePointErrorCode::OverCurrentFailure, Some("hot")));
        }
        other => panic!("unexpected {other:?}"),
    }
    assert_eq!(m.handle_event(DeviceEvent::Alive, 80), None);
}

#[test]
fn last_reported_firmware_and_diagnostics_status_are_repeated() {
    let mut m = MetadataManager::new("CP-1".into());
    assert_eq!(m.report_firmware_status().status, FirmwareStatus::Idle);
    assert_eq!(m.report_diagnostics_status().status, DiagnosticsStatus::Idle);
    m.handle_event(DeviceEvent::FirmwareStatus { status: FirmwareStatus::Downloading }, 1);
    m.handle_event(DeviceEvent::DiagnosticsStatus { status: DiagnosticsStatus::Uploading }, 2);
    m.handle_event(DeviceEvent::Alive, 3);
    assert_eq!(m.report_firmware_status().status, FirmwareStatus::Downloading);
    assert_eq!(m.report_diagnostics_status().status, DiagnosticsStatus::Uploading);
    m.handle_event(DeviceEvent::FirmwareStatus { status: FirmwareStatus::Installed }, 4);
    assert_eq!(m.report_firmware_status().status, FirmwareStatus::Installed);
}

#[test]
fn boot_handshake() {
    let c = ConnectivityManager::new("CP-1".into(), "OpenAI".into(), "Codex-CP".into());
    assert_eq!(c.cp_id(), "CP-1");
    let req = c.boot_request();
    assert_eq!(req.charge_point_vendor, "OpenAI");
    assert_eq!(req.charge_point_model, "Codex-CP");
    assert!(req.firmware_version.is_none());
    let accepted = BootNotificationResponse { current_time: 0, interval: 60, status: RegistrationStatus::Accepted };
    assert_eq!(ConnectivityManager::heartbeat_interval(&accepted), Ok(60));
    let zero = BootNotificationResponse { current_time: 0, interval: 0, status: RegistrationStatus::Accepted };
    assert_eq!(ConnectivityManager::heartbeat_interval(&zero), Ok(1));
    let pending = BootNotificationResponse { current_time: 0, interval: 60, status: RegistrationStatus::Pending };
    assert_eq!(ConnectivityManager::heartbeat_interval(&pending), Err(RegistrationStatus::Pending));
    let bi = ConnectivityManager::boot_info(&pending, 77);
    assert_eq!((bi.status.as_str(), bi.interval, bi.last_boot), ("Pending", 60, 77));
    let n = ConnectivityManager::boot_status_notification(88);
    assert_eq!((n.connector_id, n.status, n.info.as_deref(), n.timestamp), (0, ChargePointStatus::Available, Some("Init after boot"), Some(88)));
}

#[test]
fn replay_acknowledges_up_to_the_first_failure() {
    let ids = vec![5u64, 6, 7, 8];
    assert_eq!(ConnectivityManager::replay_acks(&ids, &vec![true, true, false, true]), vec![5, 6]);
    assert_eq!(ConnectivityManager::replay_acks(&ids, &vec![true, true, true, true]), ids);
    assert_eq!(ConnectivityManager::replay_acks(&ids, &vec![false]), Vec::<u64>::new());
    assert_eq!(ConnectivityManager::replay_acks(&ids, &vec![true]), vec![5]);
}

#[test]
fn triggers_select_their_report() {
    assert_eq!(triggered_report(MessageTrigger::BootNotification), Some(TriggeredReport::Boot));
    assert_eq!(triggered_report(MessageTrigger::Heartbeat), Some(TriggeredReport::Heartbeat));
    assert_eq!(triggered_report(MessageTrigger::FirmwareStatusNotification), Some(TriggeredReport::FirmwareStatus));
    assert_eq!(triggered_report(MessageTrigger::DiagnosticsStatusNotification), Some(TriggeredReport::DiagnosticsStatus));
    assert_eq!(triggered_report(MessageTrigger::MeterValues), None);
    assert_eq!(triggered_report(MessageTrigger::StatusNotification), None);
}

#[test]
fn device_error_messages() {
    assert_eq!(DeviceError::Closed.message(), "device closed");
    assert_eq!(DeviceError::Backend("publish: down".into()).message(), "device backend error: publish: down");
}

fn broker() -> MqttBrokerConfig {
    MqttBrokerConfig {
        host: "localhost".into(),
        port: 1883,
        username: Some("u".into()),
        password: None,
        topic_prefix: default_topic_prefix(),
        client_id: "ocpp-gateway".into(),
    }
}

#[test]
fn mqtt_devices_get_their_own_client_and_topics() {
    let cfg: MqttDeviceConfig = mqtt_device_config(&broker(), "BOX-001", "CP-001");
    assert_eq!(cfg.client_id, "ocpp-gateway-CP-001");
    assert_eq!(cfg.broker_host, "localhost");
    assert_eq!(cfg.broker_port, 1883);
    assert_eq!(cfg.event_topic(), "batteries/BOX-001/events");
    assert_eq!(cfg.cmd_topic(), "batteries/BOX-001/commands");
    assert_eq!(cfg.credentials(), None);
    let with_password = MqttDeviceConfig { password: Some("p".into()), ..cfg };
    assert_eq!(with_password.credentials(), Some(("u".to_string(), "p".to_string())));
}

#[test]
fn supervisor_picks_backend_and_url() {
    assert_eq!(default_call_timeout(), 30);
    let cp = ChargePointEntry {
        id: "CP-001".into(),
        vendor: "OpenAI".into(),
        model: "Codex-CP".into(),
        device: DeviceBackendConfig::Mqtt { battery_id: "BOX-001".into() },
    };
    assert_eq!(device_plan(&cp, &None), Err(SupervisorError::MissingMqttBroker));
    match device_plan(&cp, &Some(broker())) {
        Ok(DevicePlan::Mqtt(c)) => assert_eq!(c.battery_id, "BOX-001"),
        other => panic!("unexpected {other:?}"),
    }
    let grpc = ChargePointEntry { device: DeviceBackendConfig::Grpc { battery_id: "B2".into() }, ..cp };
    assert_eq!(device_plan(&grpc, &None), Ok(DevicePlan::Grpc("B2".into())));
    assert_eq!(charge_point_url("wss://csms.example.com/ocpp/", "CP-001"), Ok("wss://csms.example.com/ocpp/CP-001".to_string()));
    assert_eq!(charge_point_url("wss://csms.example.com/ocpp", "CP-001"), Ok("wss://csms.example.com/CP-001".to_string()));
    assert_eq!(charge_point_url("not a url", "CP-001"), Err(SupervisorError::BadChargePointUrl("CP-001".into())));
}

#[test]
fn local_sources_default_to_cache_only() {
    assert!(!TransactionManager::config_flag(None, false));
    assert!(TransactionManager::config_flag(None, true));
    assert!(TransactionManager::config_flag(Some("true".into()), false));
    assert!(!TransactionManager::config_flag(Some("false".into()), true));
    assert!(!TransactionManager::config_flag(Some("TRUE".into()), true));
}

#[test]
fn remote_start_stop_is_accepted_once_delivered() {
    assert_eq!(remote_start_stop_status(Ok(())), Ok(RemoteStartStopStatus::Accepted));
    assert_eq!(remote_start_stop_status(Err(DeviceError::Closed)), Err(DeviceError::Closed));
    assert_eq!(
        remote_start_stop_status(Err(DeviceError::Backend("publish: down".into()))),
        Err(DeviceError::Backend("publish: down".into()))
    );
}
