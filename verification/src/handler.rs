//! How the gateway answers the calls the central system makes, given what
//! the battery acknowledged and what the store holds.

use vstd::prelude::*;

use crate::charging::{applicable_profiles, applicable_profiles_spec, combined_limit, SmartChargingEngine};
use crate::enums::{
    AvailabilityStatus, CancelReservationStatus, ChargingProfilePurpose, ClearChargingProfileStatus,
    ConfigurationStatus, DataTransferStatus, GetCompositeScheduleStatus, RemoteStartStopStatus,
    ReservationStatus, ResetStatus, ResetType, TriggerMessageStatus, UnlockStatus, UpdateType,
};
use crate::device::DeviceError;
use crate::events::{DeviceAck, DeviceCommand};
use crate::messages::{
    ChargingProfile, ChargingSchedule, ChargingSchedulePeriod, ClearChargingProfileRequest,
    ConfigurationKey, DataTransferResponse, GetCompositeScheduleRequest, GetCompositeScheduleResponse,
    GetConfigurationResponse, ReserveNowRequest, ReserveNowResponse, Timestamp,
};
use crate::store::reservations::Reservation;

verus! {

/// Remote start/stop: accepted once the command has been delivered to the
/// battery, whose own answer comes later among its events; a command that
/// could not be delivered is answered with the delivery error.
pub fn remote_start_stop_status(delivery: Result<(), DeviceError>) -> (r: Result<RemoteStartStopStatus, DeviceError>)
    ensures
        match delivery {
            Ok(()) => r == Ok::<RemoteStartStopStatus, DeviceError>(RemoteStartStopStatus::Accepted),
            Err(e) => r == Err::<RemoteStartStopStatus, DeviceError>(e),
        },
{
    match delivery {
        Ok(()) => Ok(RemoteStartStopStatus::Accepted),
        Err(e) => Err(e),
    }
}

/// The reboot command for a reset: a hard reboot exactly for a hard reset.
pub fn reset_command(command_id: String, reset_type: ResetType) -> (r: DeviceCommand)
    ensures
        r matches DeviceCommand::Reboot { command_id: id, hard } && id == command_id && hard == (reset_type
            == ResetType::Hard),
{
    let hard = match reset_type {
        ResetType::Hard => true,
        ResetType::Soft => false,
    };
    DeviceCommand::Reboot { command_id, hard }
}

/// Reset: accepted only when the battery accepted the reboot.
pub fn reset_status(ack: DeviceAck) -> (r: ResetStatus)
    ensures
        r == (if ack == DeviceAck::Accepted {
            ResetStatus::Accepted
        } else {
            ResetStatus::Rejected
        }),
{
    match ack {
        DeviceAck::Accepted => ResetStatus::Accepted,
        _ => ResetStatus::Rejected,
    }
}

/// The configuration status for the battery's answer to a new setting.
pub open spec fn configuration_status_spec(ack: DeviceAck) -> ConfigurationStatus {
    match ack {
        DeviceAck::Accepted => ConfigurationStatus::Accepted,
        DeviceAck::Rejected => ConfigurationStatus::Rejected,
        DeviceAck::NotSupported => ConfigurationStatus::NotSupported,
        DeviceAck::Failed => ConfigurationStatus::Rejected,
    }
}

/// ChangeConfiguration: the battery's answer, a failure counting as a rejection.
pub fn configuration_status(ack: DeviceAck) -> (r: ConfigurationStatus)
    ensures
        r == configuration_status_spec(ack),
        ack == DeviceAck::Accepted <==> r == ConfigurationStatus::Accepted,
        ack == DeviceAck::NotSupported <==> r == ConfigurationStatus::NotSupported,
        (ack == DeviceAck::Rejected || ack == DeviceAck::Failed) <==> r == ConfigurationStatus::Rejected,
{
    match ack {
        DeviceAck::Accepted => ConfigurationStatus::Accepted,
        DeviceAck::Rejected => ConfigurationStatus::Rejected,
        DeviceAck::NotSupported => ConfigurationStatus::NotSupported,
        DeviceAck::Failed => ConfigurationStatus::Rejected,
    }
}

pub open spec fn unlock_status_spec(ack: DeviceAck) -> UnlockStatus {
    match ack {
        DeviceAck::Accepted => UnlockStatus::Unlocked,
        DeviceAck::Rejected => UnlockStatus::UnlockFailed,
        DeviceAck::Failed => UnlockStatus::UnlockFailed,
        DeviceAck::NotSupported => UnlockStatus::NotSupported,
    }
}

/// UnlockConnector: unlocked when accepted, failed when rejected or failed.
pub fn unlock_status(ack: DeviceAck) -> (r: UnlockStatus)
    ensures
        r == unlock_status_spec(ack),
        ack == DeviceAck::Accepted <==> r == UnlockStatus::Unlocked,
        ack == DeviceAck::NotSupported <==> r == UnlockStatus::NotSupported,
        (ack == DeviceAck::Rejected || ack == DeviceAck::Failed) <==> r == UnlockStatus::UnlockFailed,
{
    match ack {
        DeviceAck::Accepted => UnlockStatus::Unlocked,
        DeviceAck::Rejected => UnlockStatus::UnlockFailed,
        DeviceAck::Failed => UnlockStatus::UnlockFailed,
        DeviceAck::NotSupported => UnlockStatus::NotSupported,
    }
}

/// How the battery's answer to a setting or an unlock reaches the central
/// system: only an accepted command counts as done, a command the battery
/// cannot carry out is reported as not supported, and a refusal and a
/// failure are reported alike.
pub proof fn law_battery_answers(ack: DeviceAck)
    ensures
        ack == DeviceAck::Accepted <==> configuration_status_spec(ack) == ConfigurationStatus::Accepted,
        ack == DeviceAck::NotSupported <==> configuration_status_spec(ack) == ConfigurationStatus::NotSupported,
        (ack == DeviceAck::Rejected || ack == DeviceAck::Failed) <==> configuration_status_spec(ack)
            == ConfigurationStatus::Rejected,
        ack == DeviceAck::Accepted <==> unlock_status_spec(ack) == UnlockStatus::Unlocked,
        ack == DeviceAck::NotSupported <==> unlock_status_spec(ack) == UnlockStatus::NotSupported,
        (ack == DeviceAck::Rejected || ack == DeviceAck::Failed) <==> unlock_status_spec(ack)
            == UnlockStatus::UnlockFailed,
{
}

/// ChangeAvailability: accepted only when the battery accepted.
pub fn availability_status(ack: DeviceAck) -> (r: AvailabilityStatus)
    ensures
        r == (if ack == DeviceAck::Accepted {
            AvailabilityStatus::Accepted
        } else {
            AvailabilityStatus::Rejected
        }),
{
    match ack {
        DeviceAck::Accepted => AvailabilityStatus::Accepted,
        DeviceAck::Rejected => AvailabilityStatus::Rejected,
        DeviceAck::NotSupported => AvailabilityStatus::Rejected,
        DeviceAck::Failed => AvailabilityStatus::Rejected,
    }
}

/// TriggerMessage: accepted when the request could be handed to the
/// charge-point task.
pub fn trigger_message_status(delivered: bool) -> (r: TriggerMessageStatus)
    ensures
        r == (if delivered {
            TriggerMessageStatus::Accepted
        } else {
            TriggerMessageStatus::Rejected
        }),
{
    if delivered {
        TriggerMessageStatus::Accepted
    } else {
        TriggerMessageStatus::Rejected
    }
}

/// SendLocalList: whether the list replaces the stored one.
pub fn is_full_update(update_type: UpdateType) -> (r: bool)
    ensures
        r == (update_type == UpdateType::Full),
{
    match update_type {
        UpdateType::Full => true,
        UpdateType::Differential => false,
    }
}

/// The reservation status for a reservation the battery did not accept.
pub open spec fn reservation_refusal_spec(ack: DeviceAck) -> ReservationStatus {
    match ack {
        DeviceAck::Failed => ReservationStatus::Faulted,
        _ => ReservationStatus::Rejected,
    }
}

/// A reservation the battery did not take is answered `Faulted` when the
/// battery failed and `Rejected` when it refused or cannot reserve; only an
/// accepted reservation is answered `Accepted`.
pub proof fn law_refused_reservation_status(ack: DeviceAck)
    ensures
        ack == DeviceAck::Failed ==> reservation_refusal_spec(ack) == ReservationStatus::Faulted,
        ack == DeviceAck::Rejected ==> reservation_refusal_spec(ack) == ReservationStatus::Rejected,
        ack == DeviceAck::NotSupported ==> reservation_refusal_spec(ack) == ReservationStatus::Rejected,
        reservation_refusal_spec(ack) != ReservationStatus::Accepted,
{
}

/// ReserveNow: when the battery accepted, the reservation is recorded (the
/// second component) and the answer is `Accepted`; otherwise nothing is
/// recorded and the answer is `Faulted` for a failure, `Rejected` else.
pub fn reserve_now_outcome(req: ReserveNowRequest, ack: DeviceAck) -> (r: (ReserveNowResponse, Option<Reservation>))
    ensures
        ack == DeviceAck::Accepted ==> {
            &&& r.0.status == ReservationStatus::Accepted
            &&& r.1 == Some(
                Reservation {
                    connector_id: req.connector_id,
                    expiry_date: req.expiry_date,
                    id_tag: req.id_tag,
                    reservation_id: req.reservation_id,
                    parent_id_tag: req.parent_id_tag,
                },
            )
        },
        ack != DeviceAck::Accepted ==> r.0.status == reservation_refusal_spec(ack) && r.1 is None,
        ack == DeviceAck::Failed ==> r.0.status == ReservationStatus::Faulted,
        (ack == DeviceAck::Rejected || ack == DeviceAck::NotSupported) ==> r.0.status == ReservationStatus::Rejected,
{
    match ack {
        DeviceAck::Accepted => {
            let res = Reservation {
                connector_id: req.connector_id,
                expiry_date: req.expiry_date,
                id_tag: req.id_tag,
                reservation_id: req.reservation_id,
                parent_id_tag: req.parent_id_tag,
            };
            (ReserveNowResponse { status: ReservationStatus::Accepted }, Some(res))
        },
        DeviceAck::Failed => (ReserveNowResponse { status: ReservationStatus::Faulted }, None),
        _ => (ReserveNowResponse { status: ReservationStatus::Rejected }, None),
    }
}

/// CancelReservation: `ack` is the battery's answer, or `None` when no
/// reservation has the requested id. Accepted only when the battery accepted;
/// the reservation is then deleted.
pub fn cancel_reservation_status(ack: Option<DeviceAck>) -> (r: CancelReservationStatus)
    ensures
        r == (if ack == Some(DeviceAck::Accepted) {
            CancelReservationStatus::Accepted
        } else {
            CancelReservationStatus::Rejected
        }),
{
    match ack {
        Some(DeviceAck::Accepted) => CancelReservationStatus::Accepted,
        _ => CancelReservationStatus::Rejected,
    }
}

/// DataTransfer: `outcome` is the battery's answer and data, or `None` when
/// none came in time. Accepted and rejected answers pass through; any other
/// answer means the vendor is unknown; no answer is a rejection.
pub fn data_transfer_response(outcome: Option<(DeviceAck, Option<String>)>) -> (r: DataTransferResponse)
    ensures
        match outcome {
            Some((ack, data)) => {
                &&& r.data == data
                &&& r.status == match ack {
                    DeviceAck::Accepted => DataTransferStatus::Accepted,
                    DeviceAck::Rejected => DataTransferStatus::Rejected,
                    _ => DataTransferStatus::UnknownVendorId,
                }
            },
            None => r.status == DataTransferStatus::Rejected && r.data is None,
        },
{
    match outcome {
        Some((ack, data)) => {
            let status = match ack {
                DeviceAck::Accepted => DataTransferStatus::Accepted,
                DeviceAck::Rejected => DataTransferStatus::Rejected,
                _ => DataTransferStatus::UnknownVendorId,
            };
            DataTransferResponse { status, data }
        },
        None => DataTransferResponse { status: DataTransferStatus::Rejected, data: None },
    }
}

/// The requested keys that the store knows, with their values, in request
/// order: each lookup is a key and what the store holds for it.
pub open spec fn known_keys(lookups: Seq<(String, Option<String>)>) -> Seq<ConfigurationKey>
    decreases lookups.len(),
{
    if lookups.len() == 0 {
        Seq::empty()
    } else {
        let prev = known_keys(lookups.drop_last());
        match lookups.last().1 {
            Some(v) => prev.push(ConfigurationKey { key: lookups.last().0, readonly: false, value: Some(v) }),
            None => prev,
        }
    }
}

/// The requested keys that the store does not know, in request order.
pub open spec fn unknown_keys(lookups: Seq<(String, Option<String>)>) -> Seq<String>
    decreases lookups.len(),
{
    if lookups.len() == 0 {
        Seq::empty()
    } else {
        let prev = unknown_keys(lookups.drop_last());
        match lookups.last().1 {
            Some(_) => prev,
            None => prev.push(lookups.last().0),
        }
    }
}

/// GetConfiguration for a list of keys: `lookups` pairs each requested key
/// with what the store holds for it. Known keys are reported with their
/// values (never read-only); unknown keys are listed apart, and that list is
/// omitted when empty.
pub fn configuration_for_keys(lookups: &Vec<(String, Option<String>)>) -> (r: GetConfigurationResponse)
    ensures
        r.configuration_key matches Some(k) && k@ == known_keys(lookups@),
        unknown_keys(lookups@).len() == 0 ==> r.unknown_key is None,
        unknown_keys(lookups@).len() > 0 ==> (r.unknown_key matches Some(u) && u@ == unknown_keys(lookups@)),
{
    let mut known: Vec<ConfigurationKey> = Vec::new();
    let mut unknown: Vec<String> = Vec::new();
    let mut i: usize = 0;
    while i < lookups.len()
        invariant
            i <= lookups@.len(),
            known@ == known_keys(lookups@.take(i as int)),
            unknown@ == unknown_keys(lookups@.take(i as int)),
        decreases lookups@.len() - i,
    {
        proof {
            assert(lookups@.take(i + 1).drop_last() =~= lookups@.take(i as int));
        }
        let k = lookups[i].0.clone();
        match &lookups[i].1 {
            Some(v) => {
                known.push(ConfigurationKey { key: k, readonly: false, value: Some(v.clone()) });
            },
            None => {
                unknown.push(k);
            },
        }
        i = i + 1;
    }
    assert(lookups@.take(lookups@.len() as int) =~= lookups@);
    let unknown_key = if unknown.len() == 0 {
        None
    } else {
        Some(unknown)
    };
    GetConfigurationResponse { configuration_key: Some(known), unknown_key }
}

/// The stored configuration as configuration keys, in store order.
pub open spec fn listed_keys(all: Seq<(String, String)>) -> Seq<ConfigurationKey>
    decreases all.len(),
{
    if all.len() == 0 {
        Seq::empty()
    } else {
        listed_keys(all.drop_last()).push(
            ConfigurationKey { key: all.last().0, readonly: false, value: Some(all.last().1) },
        )
    }
}

/// GetConfiguration without keys: every stored key with its value.
pub fn configuration_for_all(all: &Vec<(String, String)>) -> (r: GetConfigurationResponse)
    ensures
        r.configuration_key matches Some(k) && k@ == listed_keys(all@),
        r.unknown_key is None,
{
    let mut known: Vec<ConfigurationKey> = Vec::new();
    let mut i: usize = 0;
    while i < all.len()
        invariant
            i <= all@.len(),
            known@ == listed_keys(all@.take(i as int)),
        decreases all@.len() - i,
    {
        proof {
            assert(all@.take(i + 1).drop_last() =~= all@.take(i as int));
        }
        known.push(ConfigurationKey { key: all[i].0.clone(), readonly: false, value: Some(all[i].1.clone()) });
        i = i + 1;
    }
    assert(all@.take(all@.len() as int) =~= all@);
    GetConfigurationResponse { configuration_key: Some(known), unknown_key: None }
}

/// A profile matches a ClearChargingProfile request when it passes every
/// filter the request sets: id, purpose and stack level.
pub open spec fn clear_matches_spec<L>(req: ClearChargingProfileRequest, p: ChargingProfile<L>) -> bool {
    &&& (req.id matches Some(id) ==> p.charging_profile_id == id)
    &&& (req.charging_profile_purpose matches Some(purp) ==> p.charging_profile_purpose == purp)
    &&& (req.stack_level matches Some(stack) ==> p.stack_level == stack)
}

/// Whether `p` passes the filters of a ClearChargingProfile request.
pub fn clear_matches<L>(req: &ClearChargingProfileRequest, p: &ChargingProfile<L>) -> (r: bool)
    ensures
        r == clear_matches_spec(*req, *p),
{
    let match_id = match req.id {
        Some(id) => p.charging_profile_id == id,
        None => true,
    };
    let match_purpose = match req.charging_profile_purpose {
        Some(purp) => purpose_eq(p.charging_profile_purpose, purp),
        None => true,
    };
    let match_stack = match req.stack_level {
        Some(stack) => p.stack_level == stack,
        None => true,
    };
    match_id && match_purpose && match_stack
}

fn purpose_eq(a: ChargingProfilePurpose, b: ChargingProfilePurpose) -> (r: bool)
    ensures
        r == (a == b),
{
    a == b
}

/// The `(connector, profile id)` pairs to delete, out of the listed
/// `(connector, profile)` pairs, in listed order.
pub open spec fn profiles_to_clear_spec<L>(req: ClearChargingProfileRequest, listed: Seq<(i32, ChargingProfile<L>)>) -> Seq<
    (i32, i32),
>
    decreases listed.len(),
{
    if listed.len() == 0 {
        Seq::empty()
    } else {
        let prev = profiles_to_clear_spec(req, listed.drop_last());
        let e = listed.last();
        if clear_matches_spec(req, e.1) {
            prev.push((e.0, e.1.charging_profile_id))
        } else {
            prev
        }
    }
}

/// ClearChargingProfile: the profiles to delete among those listed for the
/// requested connector (or all connectors).
pub fn profiles_to_clear<L>(req: &ClearChargingProfileRequest, listed: &Vec<(i32, ChargingProfile<L>)>) -> (r: Vec<(i32, i32)>)
    ensures
        r@ == profiles_to_clear_spec(*req, listed@),
{
    let mut out: Vec<(i32, i32)> = Vec::new();
    let mut i: usize = 0;
    while i < listed.len()
        invariant
            i <= listed@.len(),
            out@ == profiles_to_clear_spec(*req, listed@.take(i as int)),
        decreases listed@.len() - i,
    {
        proof {
            assert(listed@.take(i + 1).drop_last() =~= listed@.take(i as int));
        }
        let e = &listed[i];
        if clear_matches(req, &e.1) {
            out.push((e.0, e.1.charging_profile_id));
        }
        i = i + 1;
    }
    assert(listed@.take(listed@.len() as int) =~= listed@);
    out
}

/// Each filter of a ClearChargingProfile request works on its own: a profile
/// is cleared exactly when it has the requested id (if one is given), the
/// requested purpose (if one is given) and the requested stack level (if one
/// is given). So a profile of another purpose than the requested one is never
/// cleared, whatever the other filters say.
pub proof fn law_clear_filters_are_independent<L>(req: ClearChargingProfileRequest, p: ChargingProfile<L>)
    ensures
        clear_matches_spec(req, p) <==> {
            &&& req.id is None || req.id == Some(p.charging_profile_id)
            &&& req.charging_profile_purpose is None || req.charging_profile_purpose == Some(
                p.charging_profile_purpose,
            )
            &&& req.stack_level is None || req.stack_level == Some(p.stack_level)
        },
        req.charging_profile_purpose matches Some(purp) && p.charging_profile_purpose != purp ==> !clear_matches_spec(
            req,
            p,
        ),
        req.id matches Some(id) && p.charging_profile_id != id ==> !clear_matches_spec(req, p),
        req.stack_level matches Some(l) && p.stack_level != l ==> !clear_matches_spec(req, p),
{
}

/// The profiles a ClearChargingProfile request deletes are listed ones that
/// pass every filter it sets, and every listed profile that passes them is
/// deleted.
pub proof fn law_cleared_profiles_pass_the_filters<L>(
    req: ClearChargingProfileRequest,
    listed: Seq<(i32, ChargingProfile<L>)>,
)
    ensures
        forall|k: int|
            #![trigger profiles_to_clear_spec(req, listed)[k]]
            0 <= k < profiles_to_clear_spec(req, listed).len() ==> exists|j: int|
                #![trigger listed[j]]
                0 <= j < listed.len() && profiles_to_clear_spec(req, listed)[k] == (
                    listed[j].0,
                    listed[j].1.charging_profile_id,
                ) && (req.id is None || req.id == Some(listed[j].1.charging_profile_id)) && (
                req.charging_profile_purpose is None || req.charging_profile_purpose == Some(
                    listed[j].1.charging_profile_purpose,
                )) && (req.stack_level is None || req.stack_level == Some(listed[j].1.stack_level)),
        forall|j: int|
            0 <= j < listed.len() && (req.id is None || req.id == Some(listed[j].1.charging_profile_id)) && (
            req.charging_profile_purpose is None || req.charging_profile_purpose == Some(
                listed[j].1.charging_profile_purpose,
            )) && (req.stack_level is None || req.stack_level == Some(listed[j].1.stack_level))
                ==> profiles_to_clear_spec(req, listed).contains(
                (#[trigger] listed[j].0, listed[j].1.charging_profile_id),
            ),
    decreases listed.len(),
{
    if listed.len() > 0 {
        let d = listed.drop_last();
        law_cleared_profiles_pass_the_filters(req, d);
        let prev = profiles_to_clear_spec(req, d);
        let res = profiles_to_clear_spec(req, listed);
        let e = listed.last();
        law_clear_filters_are_independent(req, e.1);
        assert forall|k: int| #![trigger res[k]] 0 <= k < res.len() implies exists|j: int|
            #![trigger listed[j]]
            0 <= j < listed.len() && res[k] == (listed[j].0, listed[j].1.charging_profile_id) && (req.id is None
                || req.id == Some(listed[j].1.charging_profile_id)) && (req.charging_profile_purpose is None
                || req.charging_profile_purpose == Some(listed[j].1.charging_profile_purpose)) && (
            req.stack_level is None || req.stack_level == Some(listed[j].1.stack_level)) by {
            if k < prev.len() {
                assert(res[k] == prev[k]);
                let j = choose|j: int|
                    #![trigger d[j]]
                    0 <= j < d.len() && prev[k] == (d[j].0, d[j].1.charging_profile_id) && (req.id is None || req.id
                        == Some(d[j].1.charging_profile_id)) && (req.charging_profile_purpose is None
                        || req.charging_profile_purpose == Some(d[j].1.charging_profile_purpose)) && (
                    req.stack_level is None || req.stack_level == Some(d[j].1.stack_level));
                assert(d[j] == listed[j]);
            } else {
                let j = listed.len() - 1;
                assert(listed[j] == e);
            }
        }
        assert forall|j: int|
            0 <= j < listed.len() && (req.id is None || req.id == Some(listed[j].1.charging_profile_id)) && (
            req.charging_profile_purpose is None || req.charging_profile_purpose == Some(
                listed[j].1.charging_profile_purpose,
            )) && (req.stack_level is None || req.stack_level == Some(listed[j].1.stack_level)) implies res.contains(
            (#[trigger] listed[j].0, listed[j].1.charging_profile_id),
        ) by {
            if j < d.len() {
                assert(d[j] == listed[j]);
                assert(prev.contains((d[j].0, d[j].1.charging_profile_id)));
                let w = choose|w: int| 0 <= w < prev.len() && prev[w] == (d[j].0, d[j].1.charging_profile_id);
                assert(res[w] == prev[w]);
            } else {
                assert(listed[j] == e);
                assert(res[res.len() - 1] == (e.0, e.1.charging_profile_id));
            }
        }
    }
}

/// A ClearChargingProfile request that sets no filter clears every listed
/// profile, in listed order.
pub proof fn law_unfiltered_clear_removes_all<L>(
    req: ClearChargingProfileRequest,
    listed: Seq<(i32, ChargingProfile<L>)>,
)
    requires
        req.id is None,
        req.charging_profile_purpose is None,
        req.stack_level is None,
    ensures
        profiles_to_clear_spec(req, listed).len() == listed.len(),
        forall|i: int|
            0 <= i < listed.len() ==> #[trigger] profiles_to_clear_spec(req, listed)[i] == (
                listed[i].0,
                listed[i].1.charging_profile_id,
            ),
    decreases listed.len(),
{
    if listed.len() > 0 {
        law_unfiltered_clear_removes_all(req, listed.drop_last());
        assert forall|i: int| 0 <= i < listed.len() implies #[trigger] profiles_to_clear_spec(req, listed)[i] == (
            listed[i].0,
            listed[i].1.charging_profile_id,
        ) by {
            if i < listed.len() - 1 {
                assert(listed.drop_last()[i] == listed[i]);
            }
        }
    }
}

/// ClearChargingProfile: accepted when some profile was cleared, unknown otherwise.
pub fn clear_charging_profile_status(cleared: bool) -> (r: ClearChargingProfileStatus)
    ensures
        r == (if cleared {
            ClearChargingProfileStatus::Accepted
        } else {
            ClearChargingProfileStatus::Unknown
        }),
{
    if cleared {
        ClearChargingProfileStatus::Accepted
    } else {
        ClearChargingProfileStatus::Unknown
    }
}

/// `r` answers GetCompositeSchedule `req` at `now`, given the installed
/// `(connector, profile)` pairs: rejected when no profile governs the
/// connector or none imposes a limit; otherwise the current limit as a
/// single-period schedule starting now, in the rate unit of the first
/// governing profile, for the requested duration.
pub open spec fn is_composite_schedule<L>(
    r: GetCompositeScheduleResponse<L>,
    req: GetCompositeScheduleRequest,
    all: Seq<(i32, ChargingProfile<L>)>,
    now: Timestamp,
) -> bool {
    let app = applicable_profiles_spec(all, req.connector_id);
    match (if app.len() == 0 {
        None
    } else {
        combined_limit(app, now)
    }) {
        None => {
            &&& r.status == GetCompositeScheduleStatus::Rejected
            &&& r.connector_id is None
            &&& r.schedule_start is None
            &&& r.charging_schedule is None
        },
        Some(limit) => {
            &&& r.status == GetCompositeScheduleStatus::Accepted
            &&& r.connector_id == Some(req.connector_id)
            &&& r.schedule_start == Some(now)
            &&& r.charging_schedule matches Some(s) && {
                &&& s.duration == Some(req.duration)
                &&& s.start_schedule == Some(now)
                &&& s.charging_rate_unit == app[0].charging_schedule.charging_rate_unit
                &&& s.charging_schedule_period@ == seq![
                    ChargingSchedulePeriod { start_period: 0, limit, number_phases: None },
                ]
                &&& s.min_charging_rate is None
            }
        },
    }
}

/// GetCompositeSchedule at `now`, out of the installed `(connector, profile)` pairs.
pub fn composite_schedule_at<L: Copy>(
    req: &GetCompositeScheduleRequest,
    all: Vec<(i32, ChargingProfile<L>)>,
    now: Timestamp,
) -> (r: GetCompositeScheduleResponse<L>)
    ensures
        is_composite_schedule(r, *req, all@, now),
{
    let applicable = applicable_profiles(all, req.connector_id);
    if applicable.len() == 0 {
        return GetCompositeScheduleResponse {
            status: GetCompositeScheduleStatus::Rejected,
            connector_id: None,
            schedule_start: None,
            charging_schedule: None,
        };
    }
    match SmartChargingEngine::evaluate_combined(applicable.as_slice(), now) {
        Some(limit) => {
            let periods = vec![ChargingSchedulePeriod { start_period: 0, limit, number_phases: None }];
            assert(periods@ =~= seq![ChargingSchedulePeriod { start_period: 0, limit, number_phases: None }]);
            GetCompositeScheduleResponse {
                status: GetCompositeScheduleStatus::Accepted,
                connector_id: Some(req.connector_id),
                schedule_start: Some(now),
                charging_schedule: Some(
                    ChargingSchedule {
                        duration: Some(req.duration),
                        start_schedule: Some(now),
                        charging_rate_unit: applicable[0].charging_schedule.charging_rate_unit,
                        charging_schedule_period: periods,
                        min_charging_rate: None,
                    },
                ),
            }
        },
        None => GetCompositeScheduleResponse {
            status: GetCompositeScheduleStatus::Rejected,
            connector_id: None,
            schedule_start: None,
            charging_schedule: None,
        },
    }
}

} // verus!
