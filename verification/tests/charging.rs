use chrono::{TimeZone, Utc};
use ocpp_gateway::charging::SmartChargingEngine;
use ocpp_gateway::enums::{ChargingProfileKind, ChargingProfilePurpose, ChargingRateUnit, GetCompositeScheduleStatus};
use ocpp_gateway::transaction::TransactionManager;
use ocpp_gateway::messages::{ChargingProfile, ChargingSchedule, ChargingSchedulePeriod, GetCompositeScheduleRequest};

/// A count of seconds as a timestamp (nanoseconds).
fn secs(s: i64) -> i128 {
    s as i128 * 1_000_000_000
}

#[test]
fn test_smart_charging_evaluation() {
    let now = Utc.with_ymd_and_hms(2024, 1, 1, 12, 0, 0).unwrap().timestamp_nanos_opt().unwrap() as i128;
    let schedule = ChargingSchedule {
        duration: Some(3600),
        start_schedule: Some(now),
        charging_rate_unit: ChargingRateUnit::A,
        charging_schedule_period: vec![
            ChargingSchedulePeriod { start_period: 0, limit: 16.0, number_phases: None },
            ChargingSchedulePeriod { start_period: 1800, limit: 10.0, number_phases: None },
        ],
        min_charging_rate: None,
    };

    let profile = ChargingProfile {
        charging_profile_id: 1,
        transaction_id: None,
        stack_level: 0,
        charging_profile_purpose: ChargingProfilePurpose::ChargePointMaxProfile,
        charging_profile_kind: ChargingProfileKind::Absolute,
        recurrency_kind: None,
        valid_from: None,
        valid_to: None,
        charging_schedule: schedule,
    };

    // At T+0
    assert_eq!(SmartChargingEngine::evaluate(&profile, now), Some(16.0));
    // At T+1799
    assert_eq!(SmartChargingEngine::evaluate(&profile, now + chrono::Duration::seconds(1799).num_nanoseconds().unwrap() as i128), Some(16.0));
    // At T+1800
    assert_eq!(SmartChargingEngine::evaluate(&profile, now + chrono::Duration::seconds(1800).num_nanoseconds().unwrap() as i128), Some(10.0));
    // At T+3600 (expired)
    assert_eq!(SmartChargingEngine::evaluate(&profile, now + chrono::Duration::seconds(3601).num_nanoseconds().unwrap() as i128), None);
}

fn profile_at(
    id: i32,
    purpose: ChargingProfilePurpose,
    stack_level: i32,
    start: i64,
    periods: Vec<(i32, f64)>,
) -> ChargingProfile<f64> {
    ChargingProfile {
        charging_profile_id: id,
        transaction_id: None,
        stack_level,
        charging_profile_purpose: purpose,
        charging_profile_kind: ChargingProfileKind::Absolute,
        recurrency_kind: None,
        valid_from: None,
        valid_to: None,
        charging_schedule: ChargingSchedule {
            duration: None,
            start_schedule: Some(secs(start)),
            charging_rate_unit: ChargingRateUnit::A,
            charging_schedule_period: periods
                .into_iter()
                .map(|(start_period, limit)| ChargingSchedulePeriod { start_period, limit, number_phases: None })
                .collect(),
            min_charging_rate: None,
        },
    }
}

#[test]
fn unsorted_periods_pick_the_latest_started() {
    let p = profile_at(1, ChargingProfilePurpose::TxProfile, 0, 0, vec![(600, 8.0), (0, 16.0), (300, 12.0)]);
    assert_eq!(SmartChargingEngine::evaluate(&p, secs(0)), Some(16.0));
    assert_eq!(SmartChargingEngine::evaluate(&p, secs(299)), Some(16.0));
    assert_eq!(SmartChargingEngine::evaluate(&p, secs(300)), Some(12.0));
    assert_eq!(SmartChargingEngine::evaluate(&p, secs(10_000)), Some(8.0));
    // Before the schedule starts, nothing applies.
    assert_eq!(SmartChargingEngine::evaluate(&p, secs(-1)), None);
    // Periods that start at the same second: the last listed wins.
    let tie = profile_at(2, ChargingProfilePurpose::TxProfile, 0, 0, vec![(0, 5.0), (0, 6.0)]);
    assert_eq!(SmartChargingEngine::evaluate(&tie, secs(10)), Some(6.0));
    // No period started yet.
    let late = profile_at(3, ChargingProfilePurpose::TxProfile, 0, 0, vec![(100, 5.0)]);
    assert_eq!(SmartChargingEngine::evaluate(&late, secs(50)), None);
}

#[test]
fn validity_window_bounds_a_profile() {
    let mut p = profile_at(1, ChargingProfilePurpose::TxProfile, 0, 0, vec![(0, 16.0)]);
    p.valid_from = Some(secs(100));
    p.valid_to = Some(secs(200));
    assert_eq!(SmartChargingEngine::evaluate(&p, secs(99)), None);
    assert_eq!(SmartChargingEngine::evaluate(&p, secs(100)), Some(16.0));
    assert_eq!(SmartChargingEngine::evaluate(&p, secs(200)), Some(16.0));
    assert_eq!(SmartChargingEngine::evaluate(&p, secs(201)), None);
    // Without its own start, a schedule starts when the profile becomes valid.
    p.charging_schedule.start_schedule = None;
    p.charging_schedule.charging_schedule_period = vec![ChargingSchedulePeriod { start_period: 50, limit: 7.0, number_phases: None }];
    assert_eq!(SmartChargingEngine::evaluate(&p, secs(149)), None);
    assert_eq!(SmartChargingEngine::evaluate(&p, secs(150)), Some(7.0));
}

#[test]
fn combined_limit_follows_purpose_then_stack_level() {
    let max = profile_at(1, ChargingProfilePurpose::ChargePointMaxProfile, 0, 0, vec![(0, 32.0)]);
    let default_low = profile_at(2, ChargingProfilePurpose::TxDefaultProfile, 1, 0, vec![(0, 20.0)]);
    let default_high = profile_at(3, ChargingProfilePurpose::TxDefaultProfile, 4, 0, vec![(0, 24.0)]);
    let tx = profile_at(4, ChargingProfilePurpose::TxProfile, 9, 0, vec![(0, 10.0)]);
    let all = [tx.clone(), default_low.clone(), default_high.clone(), max.clone()];
    assert_eq!(SmartChargingEngine::evaluate_combined(&all, secs(10)), Some(32.0));
    let no_max = [tx.clone(), default_low.clone(), default_high.clone()];
    assert_eq!(SmartChargingEngine::evaluate_combined(&no_max, secs(10)), Some(24.0));
    // A higher-ranked profile that imposes nothing yet does not hide the others.
    let future_max = profile_at(5, ChargingProfilePurpose::ChargePointMaxProfile, 0, 1_000, vec![(0, 32.0)]);
    assert_eq!(SmartChargingEngine::evaluate_combined(&[future_max, tx.clone()], secs(10)), Some(10.0));
    // Equal rank and stack level: the first listed wins.
    let a = profile_at(6, ChargingProfilePurpose::TxProfile, 0, 0, vec![(0, 11.0)]);
    let b = profile_at(7, ChargingProfilePurpose::TxProfile, 0, 0, vec![(0, 12.0)]);
    assert_eq!(SmartChargingEngine::evaluate_combined(&[a.clone(), b.clone()], secs(10)), Some(11.0));
    assert_eq!(SmartChargingEngine::evaluate_combined(&[b, a], secs(10)), Some(12.0));
    assert_eq!(SmartChargingEngine::evaluate_combined::<f64>(&[], secs(10)), None);
    assert_eq!(SmartChargingEngine::purpose_rank(ChargingProfilePurpose::ChargePointMaxProfile), 3);
    assert_eq!(SmartChargingEngine::purpose_rank(ChargingProfilePurpose::TxDefaultProfile), 2);
    assert_eq!(SmartChargingEngine::purpose_rank(ChargingProfilePurpose::TxProfile), 1);
}

#[test]
fn connector_limits_use_connector_and_station_profiles() {
    let station = profile_at(1, ChargingProfilePurpose::TxDefaultProfile, 0, 0, vec![(0, 20.0)]);
    let on_two = profile_at(2, ChargingProfilePurpose::TxDefaultProfile, 3, 0, vec![(0, 8.0)]);
    let all = vec![(0, station), (2, on_two)];
    assert_eq!(SmartChargingEngine::limit_at(all.clone(), 2, secs(10)), Some(8.0));
    assert_eq!(SmartChargingEngine::limit_at(all.clone(), 1, secs(10)), Some(20.0));
    let only_two = vec![all[1].clone()];
    assert_eq!(SmartChargingEngine::limit_at(only_two, 1, secs(10)), None);
    let applicable = ocpp_gateway::charging::applicable_profiles(all, 3);
    assert_eq!(applicable.iter().map(|p| p.charging_profile_id).collect::<Vec<_>>(), vec![1]);
}

#[test]
fn limits_follow_the_given_time() {
    // A period that starts in 2001 and one that starts in 2038, of a schedule
    // that started at the epoch.
    let p = profile_at(1, ChargingProfilePurpose::TxDefaultProfile, 0, 0, vec![(1_000_000_000, 13.0), (i32::MAX, 1.0)]);
    let all = vec![(0, p)];
    let m = TransactionManager::new("CP-1".into(), vec![]);
    let now = secs(1_700_000_000);
    assert_eq!(m.get_limit(all.clone(), 1, now), Some(13.0));
    assert_eq!(m.get_limit(all.clone(), 1, secs(999_999_999)), None);
    assert_eq!(m.get_limit(all.clone(), 1, secs(i32::MAX as i64)), Some(1.0));
    let req = GetCompositeScheduleRequest { connector_id: 1, duration: 60, charging_rate_unit: None };
    let r = ocpp_gateway::handler::composite_schedule_at(&req, all, now);
    assert_eq!(r.status, GetCompositeScheduleStatus::Accepted);
    assert_eq!(r.schedule_start, Some(now));
}

#[test]
fn period_order_does_not_change_the_limit() {
    let a = profile_at(1, ChargingProfilePurpose::TxProfile, 0, 0, vec![(0, 16.0), (300, 12.0), (600, 8.0)]);
    let b = profile_at(1, ChargingProfilePurpose::TxProfile, 0, 0, vec![(600, 8.0), (0, 16.0), (300, 12.0)]);
    for t in [-5, 0, 299, 300, 599, 600, 5_000] {
        assert_eq!(SmartChargingEngine::evaluate(&a, secs(t)), SmartChargingEngine::evaluate(&b, secs(t)), "at {t}");
    }
}

#[test]
fn time_is_kept_below_the_second() {
    let half = 500_000_000i128;
    let mut p = profile_at(1, ChargingProfilePurpose::TxProfile, 0, 100, vec![(0, 16.0), (10, 8.0)]);
    p.valid_to = Some(secs(200));
    // Half a second after the end of validity, nothing applies.
    assert_eq!(SmartChargingEngine::evaluate(&p, secs(200) + half), None);
    assert_eq!(SmartChargingEngine::evaluate(&p, secs(200)), Some(8.0));
    // Less than a second before the schedule starts counts as zero whole seconds.
    assert_eq!(SmartChargingEngine::evaluate(&p, secs(100) - half), Some(16.0));
    assert_eq!(SmartChargingEngine::evaluate(&p, secs(99)), None);
    // Elapsed time is rounded down to whole seconds.
    assert_eq!(SmartChargingEngine::evaluate(&p, secs(110) - 1), Some(16.0));
    assert_eq!(SmartChargingEngine::evaluate(&p, secs(110)), Some(8.0));
    // Times far apart do not overflow.
    let mut far = profile_at(2, ChargingProfilePurpose::TxProfile, 0, 0, vec![(0, 3.0)]);
    far.charging_schedule.start_schedule = Some(i128::MIN);
    // The whole seconds between them, wrapped to 32 bits, decide.
    let expected = if (u128::MAX / 1_000_000_000) as i32 >= 0 { Some(3.0) } else { None };
    assert_eq!(SmartChargingEngine::evaluate(&far, i128::MAX), expected);
}
