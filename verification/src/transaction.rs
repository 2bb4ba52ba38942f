//! Transactions: local authorization, reservations, starting and stopping
//! transactions, meter values, and stops that could not be delivered.
//!
//! Each step takes what the gateway learned from the central system or the
//! store and returns what to send or persist next.

use vstd::prelude::*;

use crate::charging::{connector_limit, SmartChargingEngine};
use crate::enums::{
    AuthorizationStatus, ChargePointErrorCode, ChargePointStatus, Measurand, ReadingContext,
    StopReason, UnitOfMeasure,
};
use crate::events::MeterSample;
use crate::messages::{
    ChargingProfile, IdTagInfo, MeterValue, MeterValuesRequest, SampledValue, StartTransactionRequest,
    StartTransactionResponse, StatusNotificationRequest, StopTransactionRequest, Timestamp,
};
use crate::store::reservations::Reservation;
use crate::store::state::{ActiveTransaction, PendingStop};
use crate::text::{format_i32, int_to_decimal};

verus! {

broadcast use vstd::string::group_string_axioms;

/// Whether an authorization lets a transaction go ahead.
pub open spec fn is_accepted(info: IdTagInfo) -> bool {
    info.status == AuthorizationStatus::Accepted
}

/// A boolean configuration value: exactly the text `true` is true; an absent
/// value gives the default.
pub open spec fn config_flag_spec(value: Option<Seq<char>>, default: bool) -> bool {
    match value {
        Some(v) => v == "true"@,
        None => default,
    }
}

/// What a reservation means for a tag that wants to start charging.
#[derive(Debug, Clone, Copy, PartialEq, Eq, Structural)]
pub enum ReservationCheck {
    /// No reservation applies.
    Free,
    /// The tag (or its parent) holds this reservation and uses it.
    Claim(i32),
    /// The connector is reserved for someone else: no transaction starts.
    ReservedForOther,
}

/// The reservation on the connector, else the one on the whole charge point,
/// decides: it is claimed when it was made for the tag or for the tag's parent.
pub open spec fn reservation_check_spec(
    connector_res: Option<Reservation>,
    station_res: Option<Reservation>,
    id_tag: Seq<char>,
    auth: IdTagInfo,
) -> ReservationCheck {
    let res = match connector_res {
        Some(r) => Some(r),
        None => station_res,
    };
    match res {
        None => ReservationCheck::Free,
        Some(r) => {
            let matches_tag = r.id_tag@ == id_tag;
            let matches_parent = auth.parent_id_tag matches Some(p) && p@ == r.id_tag@;
            if matches_tag || matches_parent {
                ReservationCheck::Claim(r.reservation_id)
            } else {
                ReservationCheck::ReservedForOther
            }
        },
    }
}

/// Why starting a transaction came to an end without one.
#[derive(Debug, Clone, Copy, PartialEq, Eq, Structural)]
pub enum StartOutcome {
    /// The tag is not authorized.
    NotAuthorized,
    /// The connector is reserved for another tag.
    ReservedForOther,
    /// The central system refused `StartTransaction`.
    RejectedByCentral,
    /// An answer came that the flow did not ask for.
    OutOfOrder,
}

/// What the charge point does next while it starts a transaction for a
/// battery that asked to charge.
#[derive(Debug, PartialEq)]
pub enum StartStep {
    /// Look the tag up in the local authorization list.
    ReadListEntry,
    /// Look the tag up in the authorization cache.
    ReadCacheEntry,
    /// Ask the central system to authorize the tag.
    Authorize,
    /// Store this accepted authorization in the cache.
    CacheAuthorization(IdTagInfo),
    /// Read the reservation on this connector (0: the whole charge point).
    ReadReservation(i32),
    /// Send `StartTransaction`, with the reservation it uses.
    SendStart(Option<i32>),
    /// Delete the reservations on the connector and on connector 0.
    ClearReservations,
    /// Persist this transaction.
    Persist(ActiveTransaction),
    /// The transaction is persisted: it becomes active, and the flow ends.
    Activate(ActiveTransaction),
    /// The flow ends without a transaction.
    Stop(StartOutcome),
}

/// What the charge point learned from the step it took.
#[derive(Debug, PartialEq)]
pub enum StartInput {
    /// The local list's entry for the tag.
    ListEntry(Option<IdTagInfo>),
    /// The cache's entry for the tag.
    CacheEntry(Option<IdTagInfo>),
    /// The central system's answer to `Authorize`.
    Authorized(IdTagInfo),
    /// The authorization is cached.
    Cached,
    /// The reservation that was read.
    Reservation(Option<Reservation>),
    /// The central system's answer to `StartTransaction`, sent at `started_at`.
    StartAnswer { response: StartTransactionResponse, started_at: Timestamp },
    /// The reservations are deleted.
    ReservationsCleared,
    /// The transaction is persisted.
    Persisted,
}

/// Where a start flow stands.
#[derive(Debug, PartialEq)]
pub enum StartStage {
    ListLookup,
    CacheLookup,
    CentralAuthorization,
    CacheWrite(IdTagInfo),
    ConnectorReservation,
    StationReservation,
    Starting(Option<i32>),
    Clearing(ActiveTransaction),
    Persisting(ActiveTransaction),
    Finished,
}

/// Starting a transaction for one request of a battery (OCPP 1.6 §4.2,
/// §5.13.1): local list, then cache, then the central system; then the
/// reservations; then `StartTransaction`; then the store.
#[derive(Debug, PartialEq)]
pub struct StartFlow {
    pub connector_id: i32,
    pub id_tag: String,
    pub meter_start: i32,
    pub cache_enabled: bool,
    /// The authorization, once known.
    pub auth: Option<IdTagInfo>,
    pub stage: StartStage,
}

/// The first step: the local list when it is enabled, else the cache when
/// that is enabled, else the central system.
pub open spec fn start_begin(
    connector_id: i32,
    id_tag: String,
    meter_start: i32,
    list_enabled: bool,
    cache_enabled: bool,
) -> (StartFlow, StartStep) {
    let (stage, step) = if list_enabled {
        (StartStage::ListLookup, StartStep::ReadListEntry)
    } else if cache_enabled {
        (StartStage::CacheLookup, StartStep::ReadCacheEntry)
    } else {
        (StartStage::CentralAuthorization, StartStep::Authorize)
    };
    (StartFlow { connector_id, id_tag, meter_start, cache_enabled, auth: None, stage }, step)
}

/// Once the authorization is known: only an accepted tag goes on, to the
/// connector's reservation.
pub open spec fn after_authorization(f: StartFlow, info: IdTagInfo) -> (StartFlow, StartStep) {
    if !is_accepted(info) {
        (StartFlow { auth: Some(info), stage: StartStage::Finished, ..f }, StartStep::Stop(StartOutcome::NotAuthorized))
    } else {
        (
            StartFlow { auth: Some(info), stage: StartStage::ConnectorReservation, ..f },
            StartStep::ReadReservation(f.connector_id),
        )
    }
}

/// Once the reservation that applies is known (the connector's, else the
/// whole charge point's): free or claimed, `StartTransaction` goes out.
pub open spec fn after_reservation(f: StartFlow, res: Option<Reservation>) -> (StartFlow, StartStep) {
    match f.auth {
        None => (StartFlow { stage: StartStage::Finished, ..f }, StartStep::Stop(StartOutcome::OutOfOrder)),
        Some(auth) => match reservation_check_spec(res, None, f.id_tag@, auth) {
            ReservationCheck::Free => (
                StartFlow { stage: StartStage::Starting(None), ..f },
                StartStep::SendStart(None),
            ),
            ReservationCheck::Claim(id) => (
                StartFlow { stage: StartStage::Starting(Some(id)), ..f },
                StartStep::SendStart(Some(id)),
            ),
            ReservationCheck::ReservedForOther => (
                StartFlow { stage: StartStage::Finished, ..f },
                StartStep::Stop(StartOutcome::ReservedForOther),
            ),
        },
    }
}

/// The transaction the central system started.
pub open spec fn started_transaction(
    f: StartFlow,
    response: StartTransactionResponse,
    started_at: Timestamp,
) -> ActiveTransaction {
    ActiveTransaction {
        transaction_id: response.transaction_id,
        connector_id: f.connector_id,
        id_tag: f.id_tag,
        meter_start: f.meter_start,
        started_at,
        pending_stop: None,
    }
}

/// The next step of a start flow, given what the last one brought.
pub open spec fn start_next(f: StartFlow, input: StartInput) -> (StartFlow, StartStep) {
    let out_of_order = (StartFlow { stage: StartStage::Finished, ..f }, StartStep::Stop(StartOutcome::OutOfOrder));
    match f.stage {
        StartStage::ListLookup => match input {
            StartInput::ListEntry(Some(info)) => after_authorization(f, info),
            StartInput::ListEntry(None) => if f.cache_enabled {
                (StartFlow { stage: StartStage::CacheLookup, ..f }, StartStep::ReadCacheEntry)
            } else {
                (StartFlow { stage: StartStage::CentralAuthorization, ..f }, StartStep::Authorize)
            },
            _ => out_of_order,
        },
        StartStage::CacheLookup => match input {
            StartInput::CacheEntry(Some(info)) => after_authorization(f, info),
            StartInput::CacheEntry(None) => (
                StartFlow { stage: StartStage::CentralAuthorization, ..f },
                StartStep::Authorize,
            ),
            _ => out_of_order,
        },
        StartStage::CentralAuthorization => match input {
            StartInput::Authorized(info) => if is_accepted(info) {
                (StartFlow { stage: StartStage::CacheWrite(info), ..f }, StartStep::CacheAuthorization(info))
            } else {
                after_authorization(f, info)
            },
            _ => out_of_order,
        },
        StartStage::CacheWrite(info) => match input {
            StartInput::Cached => after_authorization(f, info),
            _ => out_of_order,
        },
        StartStage::ConnectorReservation => match input {
            StartInput::Reservation(Some(r)) => after_reservation(f, Some(r)),
            StartInput::Reservation(None) => (
                StartFlow { stage: StartStage::StationReservation, ..f },
                StartStep::ReadReservation(0),
            ),
            _ => out_of_order,
        },
        StartStage::StationReservation => match input {
            StartInput::Reservation(r) => after_reservation(f, r),
            _ => out_of_order,
        },
        StartStage::Starting(rid) => match input {
            StartInput::StartAnswer { response, started_at } => if is_accepted(response.id_tag_info) {
                let tx = started_transaction(f, response, started_at);
                if rid is Some {
                    (StartFlow { stage: StartStage::Clearing(tx), ..f }, StartStep::ClearReservations)
                } else {
                    (StartFlow { stage: StartStage::Persisting(tx), ..f }, StartStep::Persist(tx))
                }
            } else {
                (StartFlow { stage: StartStage::Finished, ..f }, StartStep::Stop(StartOutcome::RejectedByCentral))
            },
            _ => out_of_order,
        },
        StartStage::Clearing(tx) => match input {
            StartInput::ReservationsCleared => (
                StartFlow { stage: StartStage::Persisting(tx), ..f },
                StartStep::Persist(tx),
            ),
            _ => out_of_order,
        },
        StartStage::Persisting(tx) => match input {
            StartInput::Persisted => (StartFlow { stage: StartStage::Finished, ..f }, StartStep::Activate(tx)),
            _ => out_of_order,
        },
        StartStage::Finished => out_of_order,
    }
}

impl StartFlow {
    /// Starts the flow for a battery's request, given whether the local list
    /// and the cache are enabled.
    pub fn begin(
        connector_id: i32,
        id_tag: String,
        meter_start: i32,
        list_enabled: bool,
        cache_enabled: bool,
    ) -> (r: (StartFlow, StartStep))
        ensures
            r == start_begin(connector_id, id_tag, meter_start, list_enabled, cache_enabled),
    {
        let (stage, step) = if list_enabled {
            (StartStage::ListLookup, StartStep::ReadListEntry)
        } else if cache_enabled {
            (StartStage::CacheLookup, StartStep::ReadCacheEntry)
        } else {
            (StartStage::CentralAuthorization, StartStep::Authorize)
        };
        (StartFlow { connector_id, id_tag, meter_start, cache_enabled, auth: None, stage }, step)
    }

    fn authorized(self, info: IdTagInfo) -> (r: (StartFlow, StartStep))
        ensures
            r == after_authorization(self, info),
    {
        if !TransactionManager::authorization_accepted(&info) {
            (
                StartFlow { auth: Some(info), stage: StartStage::Finished, ..self },
                StartStep::Stop(StartOutcome::NotAuthorized),
            )
        } else {
            let c = self.connector_id;
            (StartFlow { auth: Some(info), stage: StartStage::ConnectorReservation, ..self }, StartStep::ReadReservation(c))
        }
    }

    fn reserved(self, res: Option<Reservation>) -> (r: (StartFlow, StartStep))
        ensures
            r == after_reservation(self, res),
    {
        let check = match &self.auth {
            Some(auth) => TransactionManager::check_reservation(res, None, self.id_tag.as_str(), auth),
            None => {
                return self.out_of_order();
            },
        };
        match check {
            ReservationCheck::Free => (StartFlow { stage: StartStage::Starting(None), ..self }, StartStep::SendStart(None)),
            ReservationCheck::Claim(id) => (
                StartFlow { stage: StartStage::Starting(Some(id)), ..self },
                StartStep::SendStart(Some(id)),
            ),
            ReservationCheck::ReservedForOther => (
                StartFlow { stage: StartStage::Finished, ..self },
                StartStep::Stop(StartOutcome::ReservedForOther),
            ),
        }
    }

    fn out_of_order(self) -> (r: (StartFlow, StartStep))
        ensures
            r == (StartFlow { stage: StartStage::Finished, ..self }, StartStep::Stop(StartOutcome::OutOfOrder)),
    {
        (StartFlow { stage: StartStage::Finished, ..self }, StartStep::Stop(StartOutcome::OutOfOrder))
    }

    /// The next step, given what the last one brought.
    pub fn next(self, input: StartInput) -> (r: (StartFlow, StartStep))
        ensures
            r == start_next(self, input),
    {
        let StartFlow { connector_id, id_tag, meter_start, cache_enabled, auth, stage } = self;
        // Every step sets the stage anew.
        let g = StartFlow { connector_id, id_tag, meter_start, cache_enabled, auth, stage: StartStage::Finished };
        match stage {
            StartStage::ListLookup => match input {
                StartInput::ListEntry(Some(info)) => g.authorized(info),
                StartInput::ListEntry(None) => if g.cache_enabled {
                    (StartFlow { stage: StartStage::CacheLookup, ..g }, StartStep::ReadCacheEntry)
                } else {
                    (StartFlow { stage: StartStage::CentralAuthorization, ..g }, StartStep::Authorize)
                },
                _ => g.out_of_order(),
            },
            StartStage::CacheLookup => match input {
                StartInput::CacheEntry(Some(info)) => g.authorized(info),
                StartInput::CacheEntry(None) => (
                    StartFlow { stage: StartStage::CentralAuthorization, ..g },
                    StartStep::Authorize,
                ),
                _ => g.out_of_order(),
            },
            StartStage::CentralAuthorization => match input {
                StartInput::Authorized(info) => if TransactionManager::authorization_accepted(&info) {
                    let copy = info.duplicate();
                    (StartFlow { stage: StartStage::CacheWrite(info), ..g }, StartStep::CacheAuthorization(copy))
                } else {
                    g.authorized(info)
                },
                _ => g.out_of_order(),
            },
            StartStage::CacheWrite(info) => match input {
                StartInput::Cached => g.authorized(info),
                _ => g.out_of_order(),
            },
            StartStage::ConnectorReservation => match input {
                StartInput::Reservation(Some(r)) => g.reserved(Some(r)),
                StartInput::Reservation(None) => (
                    StartFlow { stage: StartStage::StationReservation, ..g },
                    StartStep::ReadReservation(0),
                ),
                _ => g.out_of_order(),
            },
            StartStage::StationReservation => match input {
                StartInput::Reservation(r) => g.reserved(r),
                _ => g.out_of_order(),
            },
            StartStage::Starting(rid) => match input {
                StartInput::StartAnswer { response, started_at } => {
                    if TransactionManager::authorization_accepted(&response.id_tag_info) {
                        let tx = ActiveTransaction {
                            transaction_id: response.transaction_id,
                            connector_id: g.connector_id,
                            id_tag: g.id_tag.clone(),
                            meter_start: g.meter_start,
                            started_at,
                            pending_stop: None,
                        };
                        if rid.is_some() {
                            (StartFlow { stage: StartStage::Clearing(tx), ..g }, StartStep::ClearReservations)
                        } else {
                            let copy = tx.duplicate();
                            (StartFlow { stage: StartStage::Persisting(tx), ..g }, StartStep::Persist(copy))
                        }
                    } else {
                        (g, StartStep::Stop(StartOutcome::RejectedByCentral))
                    }
                },
                _ => g.out_of_order(),
            },
            StartStage::Clearing(tx) => match input {
                StartInput::ReservationsCleared => {
                    let copy = tx.duplicate();
                    (StartFlow { stage: StartStage::Persisting(tx), ..g }, StartStep::Persist(copy))
                },
                _ => g.out_of_order(),
            },
            StartStage::Persisting(tx) => match input {
                StartInput::Persisted => (g, StartStep::Activate(tx)),
                _ => g.out_of_order(),
            },
            StartStage::Finished => g.out_of_order(),
        }
    }
}

/// The transactions with id `id` removed, the others kept in order.
pub open spec fn without_transaction(txs: Seq<ActiveTransaction>, id: i32) -> Seq<ActiveTransaction> {
    txs.filter(|t: ActiveTransaction| t.transaction_id != id)
}

/// The first position holding transaction `id`, if any.
pub open spec fn first_with_id(txs: Seq<ActiveTransaction>, id: i32) -> Option<int> {
    if exists|j: int| 0 <= j < txs.len() && txs[j].transaction_id == id && forall|k: int|
        0 <= k < j ==> #[trigger] txs[k].transaction_id != id {
        Some(
            choose|j: int|
                0 <= j < txs.len() && txs[j].transaction_id == id && forall|k: int|
                    0 <= k < j ==> #[trigger] txs[k].transaction_id != id,
        )
    } else {
        None
    }
}

/// The transaction running on a connector: the first one recorded there.
pub open spec fn transaction_on_connector_spec(txs: Seq<ActiveTransaction>, connector_id: i32) -> Option<i32> {
    if exists|j: int| 0 <= j < txs.len() && txs[j].connector_id == connector_id {
        let j = choose|j: int|
            0 <= j < txs.len() && txs[j].connector_id == connector_id && forall|k: int|
                0 <= k < j ==> #[trigger] txs[k].connector_id != connector_id;
        Some(txs[j].transaction_id)
    } else {
        None
    }
}

/// How many of the transactions carry a stop still to be delivered.
pub open spec fn pending_count(txs: Seq<ActiveTransaction>) -> nat {
    txs.filter(|t: ActiveTransaction| t.pending_stop is Some).len()
}

/// The stops still to be delivered, in order, with their transaction ids.
pub open spec fn pending_stops_spec(txs: Seq<ActiveTransaction>) -> Seq<(i32, PendingStop)>
    decreases txs.len(),
{
    if txs.len() == 0 {
        Seq::empty()
    } else {
        let prev = pending_stops_spec(txs.drop_last());
        match txs.last().pending_stop {
            Some(ps) => prev.push((txs.last().transaction_id, ps)),
            None => prev,
        }
    }
}

/// What remains after retrying the pending stops: `delivered[i]` tells
/// whether the `i`-th pending stop reached the central system. A delivered
/// stop ends its transaction; every other transaction stays, in order.
pub open spec fn after_retries(txs: Seq<ActiveTransaction>, delivered: Seq<bool>) -> Seq<ActiveTransaction>
    decreases txs.len(),
{
    if txs.len() == 0 {
        Seq::empty()
    } else {
        let prev = after_retries(txs.drop_last(), delivered);
        let t = txs.last();
        let rank = pending_count(txs.drop_last());
        if t.pending_stop is Some && rank < delivered.len() && delivered[rank as int] {
            prev
        } else {
            prev.push(t)
        }
    }
}

/// One sampled value of a periodic meter reading.
pub open spec fn periodic_sample(value: String, measurand: Measurand, unit: UnitOfMeasure) -> SampledValue {
    SampledValue {
        value,
        context: Some(ReadingContext::SamplePeriodic),
        format: None,
        measurand: Some(measurand),
        phase: None,
        location: None,
        unit: Some(unit),
    }
}

/// The sampled value of a reading, when the battery reported one.
pub open spec fn reading(value: Option<String>, measurand: Measurand, unit: UnitOfMeasure) -> Seq<SampledValue> {
    match value {
        Some(v) => seq![periodic_sample(v, measurand, unit)],
        None => Seq::empty(),
    }
}

/// The fractional readings of a sample, in the order they are reported:
/// state of charge, voltage, current, power, temperature.
pub open spec fn fractional_readings(s: MeterSample) -> Seq<SampledValue> {
    reading(s.soc, Measurand::SoC, UnitOfMeasure::Percent) + reading(
        s.voltage,
        Measurand::Voltage,
        UnitOfMeasure::V,
    ) + reading(s.current, Measurand::CurrentImport, UnitOfMeasure::A) + reading(
        s.power_w,
        Measurand::PowerActiveImport,
        UnitOfMeasure::W,
    ) + reading(s.temperature_c, Measurand::Temperature, UnitOfMeasure::Celcius)
}

/// The energy register reading, as reported after the fractional readings.
pub open spec fn is_energy_sample(v: SampledValue, wh: i32) -> bool {
    &&& v.value@ == int_to_decimal(wh as int)
    &&& v.context == Some(ReadingContext::SamplePeriodic)
    &&& v.format is None
    &&& v.measurand == Some(Measurand::EnergyActiveImportRegister)
    &&& v.phase is None
    &&& v.location is None
    &&& v.unit == Some(UnitOfMeasure::Wh)
}

/// `mv` packages sample `s`: its time, the fractional readings present in
/// their fixed order, then the energy register when it was reported.
pub open spec fn is_meter_value_of(mv: MeterValue, s: MeterSample) -> bool {
    &&& mv.timestamp == s.timestamp
    &&& mv.sampled_value@.len() == fractional_readings(s).len() + (if s.energy_wh is Some {
        1int
    } else {
        0int
    })
    &&& mv.sampled_value@.take(fractional_readings(s).len() as int) == fractional_readings(s)
    &&& (s.energy_wh matches Some(wh) ==> is_energy_sample(mv.sampled_value@.last(), wh))
}

/// The active transactions of one charge point.
pub struct TransactionManager {
    cp_id: String,
    active: Vec<ActiveTransaction>,
}

impl View for TransactionManager {
    type V = Seq<ActiveTransaction>;

    closed spec fn view(&self) -> Seq<ActiveTransaction> {
        self.active@
    }
}

impl TransactionManager {
    pub closed spec fn cp_id_spec(&self) -> Seq<char> {
        self.cp_id@
    }

    /// A manager for charge point `cp_id`, resuming the transactions
    /// recorded in the store.
    pub fn new(cp_id: String, active_list: Vec<ActiveTransaction>) -> (r: Self)
        ensures
            r@ == active_list@,
            r.cp_id_spec() == cp_id@,
    {
        TransactionManager { cp_id, active: active_list }
    }

    /// The charge point this manager serves.
    pub fn cp_id(&self) -> (r: &str)
        ensures
            r@ == self.cp_id_spec(),
    {
        self.cp_id.as_str()
    }

    /// The active transactions, in the order they started.
    pub fn active(&self) -> (r: &Vec<ActiveTransaction>)
        ensures
            r@ == self@,
    {
        &self.active
    }

    /// Reads a boolean configuration value (`get_config_bool`): `value` is
    /// what the configuration store holds for the key, if anything.
    pub fn config_flag(value: Option<String>, default: bool) -> (r: bool)
        ensures
            r == config_flag_spec(
                match value {
                    Some(v) => Some(v@),
                    None => None,
                },
                default,
            ),
    {
        match value {
            Some(v) => crate::text::str_eq(v.as_str(), "true"),
            None => default,
        }
    }

    /// Whether an authorization is `Accepted`: only then is it cached, and
    /// only then does a transaction start.
    pub fn authorization_accepted(info: &IdTagInfo) -> (r: bool)
        ensures
            r == is_accepted(*info),
    {
        match info.status {
            AuthorizationStatus::Accepted => true,
            _ => false,
        }
    }

    /// Checks the reservations before starting a transaction (OCPP 1.6
    /// §5.13.1): `connector_res` is the reservation on the connector,
    /// `station_res` the one on connector 0.
    pub fn check_reservation(
        connector_res: Option<Reservation>,
        station_res: Option<Reservation>,
        id_tag: &str,
        auth: &IdTagInfo,
    ) -> (r: ReservationCheck)
        ensures
            r == reservation_check_spec(connector_res, station_res, id_tag@, *auth),
    {
        let res = match connector_res {
            Some(r) => Some(r),
            None => station_res,
        };
        match res {
            None => ReservationCheck::Free,
            Some(r) => {
                let matches_tag = crate::text::str_eq(r.id_tag.as_str(), id_tag);
                let matches_parent = match &auth.parent_id_tag {
                    Some(p) => crate::text::str_eq(p.as_str(), r.id_tag.as_str()),
                    None => false,
                };
                if matches_tag || matches_parent {
                    ReservationCheck::Claim(r.reservation_id)
                } else {
                    ReservationCheck::ReservedForOther
                }
            },
        }
    }

    /// The `StartTransaction` request for an authorized tag.
    pub fn start_request(
        connector_id: i32,
        id_tag: &str,
        meter_start: i32,
        reservation_id: Option<i32>,
        now: Timestamp,
    ) -> (r: StartTransactionRequest)
        ensures
            r.connector_id == connector_id,
            r.id_tag@ == id_tag@,
            r.meter_start == meter_start,
            r.reservation_id == reservation_id,
            r.timestamp == now,
    {
        StartTransactionRequest {
            connector_id,
            id_tag: id_tag.to_string(),
            meter_start,
            reservation_id,
            timestamp: now,
        }
    }

    /// A transaction that has been persisted becomes active.
    pub fn add_active(&mut self, tx: ActiveTransaction)
        ensures
            final(self).cp_id_spec() == old(self).cp_id_spec(),
            final(self)@ == old(self)@.push(tx),
    {
        self.active.push(tx);
    }

    /// The `StopTransaction` request for a session the battery ended.
    pub fn stop_request(
        transaction_id: i32,
        meter_stop: i32,
        reason: Option<StopReason>,
        now: Timestamp,
    ) -> (r: StopTransactionRequest)
        ensures
            r.id_tag is None,
            r.meter_stop == meter_stop,
            r.timestamp == now,
            r.transaction_id == transaction_id,
            r.reason == reason,
            r.transaction_data is None,
    {
        StopTransactionRequest {
            id_tag: None,
            meter_stop,
            timestamp: now,
            transaction_id,
            reason,
            transaction_data: None,
        }
    }

    /// The central system confirmed the stop of `transaction_id`: the
    /// transaction is no longer active.
    pub fn on_stop_delivered(&mut self, transaction_id: i32)
        ensures
            final(self).cp_id_spec() == old(self).cp_id_spec(),
            final(self)@ == without_transaction(old(self)@, transaction_id),
    {
        let ghost txs = self.active@;
        let mut out: Vec<ActiveTransaction> = Vec::new();
        let mut i: usize = 0;
        while i < self.active.len()
            invariant
                self.active@ == txs,
                i <= txs.len(),
                out@ == without_transaction(txs.take(i as int), transaction_id),
            decreases txs.len() - i,
        {
            let t = self.active[i].duplicate();
            proof {
                txs.take(i as int).lemma_filter_push(t, |t: ActiveTransaction| t.transaction_id != transaction_id);
                assert(txs.take(i as int).push(t) =~= txs.take(i + 1));
            }
            if t.transaction_id != transaction_id {
                out.push(t);
            }
            i = i + 1;
        }
        assert(txs.take(txs.len() as int) =~= txs);
        self.active = out;
    }

    /// The stop of `transaction_id` could not be delivered: it is kept on the
    /// transaction, to be retried on the next connection. The updated record
    /// is returned to be persisted; `None` when no such transaction is active.
    pub fn on_stop_failed(&mut self, transaction_id: i32, stop: PendingStop) -> (r: Option<ActiveTransaction>)
        ensures
            final(self).cp_id_spec() == old(self).cp_id_spec(),
            match first_with_id(old(self)@, transaction_id) {
                Some(j) => {
                    let tx = ActiveTransaction { pending_stop: Some(stop), ..old(self)@[j] };
                    &&& r == Some(tx)
                    &&& final(self)@ == old(self)@.update(j, tx)
                },
                None => r is None && final(self)@ == old(self)@,
            },
    {
        let ghost txs = self.active@;
        let mut i: usize = 0;
        while i < self.active.len()
            invariant
                self.active@ == txs,
                txs == old(self)@,
                self.cp_id == old(self).cp_id,
                i <= txs.len(),
                forall|k: int| 0 <= k < i ==> #[trigger] txs[k].transaction_id != transaction_id,
            decreases txs.len() - i,
        {
            if self.active[i].transaction_id == transaction_id {
                let mut tx = self.active[i].duplicate();
                tx.pending_stop = Some(stop);
                let saved = tx.duplicate();
                self.active.set(i, tx);
                proof {
                    let c = choose|j: int|
                        0 <= j < txs.len() && txs[j].transaction_id == transaction_id && forall|k: int|
                            0 <= k < j ==> #[trigger] txs[k].transaction_id != transaction_id;
                    assert(c == i) by {
                        if c < i {
                            assert(txs[c].transaction_id != transaction_id);
                        }
                        if c > i {
                            assert(txs[i as int].transaction_id != transaction_id);
                        }
                    }
                }
                return Some(saved);
            }
            i = i + 1;
        }
        None
    }

    /// The transaction running on `connector_id`, if any.
    pub fn transaction_on_connector(&self, connector_id: i32) -> (r: Option<i32>)
        ensures
            r == transaction_on_connector_spec(self@, connector_id),
    {
        let ghost txs = self.active@;
        let mut i: usize = 0;
        while i < self.active.len()
            invariant
                self.active@ == txs,
                i <= txs.len(),
                forall|k: int| 0 <= k < i ==> #[trigger] txs[k].connector_id != connector_id,
            decreases txs.len() - i,
        {
            if self.active[i].connector_id == connector_id {
                proof {
                    let c = choose|j: int|
                        0 <= j < txs.len() && txs[j].connector_id == connector_id && forall|k: int|
                            0 <= k < j ==> #[trigger] txs[k].connector_id != connector_id;
                    assert(c == i) by {
                        if c < i {
                            assert(txs[c].connector_id != connector_id);
                        }
                        if c > i {
                            assert(txs[i as int].connector_id != connector_id);
                        }
                    }
                }
                return Some(self.active[i].transaction_id);
            }
            i = i + 1;
        }
        None
    }

    /// Packages a meter sample as an OCPP meter value: one periodic sampled
    /// value per reading present, in a fixed order, the energy register last.
    pub fn meter_value_from(&self, s: MeterSample) -> (r: MeterValue)
        ensures
            is_meter_value_of(r, s),
    {
        let ghost readings = fractional_readings(s);
        let mut sampled: Vec<SampledValue> = Vec::new();
        push_reading(&mut sampled, s.soc, Measurand::SoC, UnitOfMeasure::Percent);
        push_reading(&mut sampled, s.voltage, Measurand::Voltage, UnitOfMeasure::V);
        push_reading(&mut sampled, s.current, Measurand::CurrentImport, UnitOfMeasure::A);
        push_reading(&mut sampled, s.power_w, Measurand::PowerActiveImport, UnitOfMeasure::W);
        push_reading(&mut sampled, s.temperature_c, Measurand::Temperature, UnitOfMeasure::Celcius);
        assert(sampled@ =~= readings);
        if let Some(wh) = s.energy_wh {
            sampled.push(
                SampledValue {
                    value: format_i32(wh),
                    context: Some(ReadingContext::SamplePeriodic),
                    format: None,
                    measurand: Some(Measurand::EnergyActiveImportRegister),
                    phase: None,
                    location: None,
                    unit: Some(UnitOfMeasure::Wh),
                },
            );
            assert(sampled@.take(readings.len() as int) =~= readings);
        } else {
            assert(sampled@.take(readings.len() as int) =~= readings);
        }
        MeterValue { timestamp: s.timestamp, sampled_value: sampled }
    }

    /// The `MeterValues` request for a sample taken on `connector_id`,
    /// attributed to the transaction running there, if any.
    pub fn meter_values_request(&self, connector_id: i32, sample: MeterSample) -> (r: MeterValuesRequest)
        ensures
            r.connector_id == connector_id,
            r.transaction_id == transaction_on_connector_spec(self@, connector_id),
            r.meter_value@.len() == 1,
            is_meter_value_of(r.meter_value@[0], sample),
    {
        let tx_id = self.transaction_on_connector(connector_id);
        let mv = self.meter_value_from(sample);
        MeterValuesRequest { connector_id, transaction_id: tx_id, meter_value: vec![mv] }
    }

    /// The status notifications sent after reconnecting: each active
    /// transaction's connector is reported `Charging`.
    pub fn resume_notifications(&self, now: Timestamp) -> (r: Vec<StatusNotificationRequest>)
        ensures
            r@.len() == self@.len(),
            forall|i: int|
                0 <= i < r@.len() ==> {
                    let n = #[trigger] r@[i];
                    let t = self@[i];
                    &&& n.connector_id == t.connector_id
                    &&& n.error_code == ChargePointErrorCode::NoError
                    &&& n.status == ChargePointStatus::Charging
                    &&& n.info matches Some(info) && info@ == "resumed tx "@ + int_to_decimal(
                        t.transaction_id as int,
                    )
                    &&& n.timestamp == Some(now)
                    &&& n.vendor_id is None
                    &&& n.vendor_error_code is None
                },
    {
        let mut out: Vec<StatusNotificationRequest> = Vec::new();
        let mut i: usize = 0;
        while i < self.active.len()
            invariant
                i <= self@.len(),
                out@.len() == i,
                forall|k: int|
                    0 <= k < i ==> {
                        let n = #[trigger] out@[k];
                        let t = self@[k];
                        &&& n.connector_id == t.connector_id
                        &&& n.error_code == ChargePointErrorCode::NoError
                        &&& n.status == ChargePointStatus::Charging
                        &&& n.info matches Some(info) && info@ == "resumed tx "@ + int_to_decimal(
                            t.transaction_id as int,
                        )
                        &&& n.timestamp == Some(now)
                        &&& n.vendor_id is None
                        &&& n.vendor_error_code is None
                    },
            decreases self@.len() - i,
        {
            let t = &self.active[i];
            let mut info = "resumed tx ".to_string();
            let id = format_i32(t.transaction_id);
            info.append(id.as_str());
            out.push(
                StatusNotificationRequest {
                    connector_id: t.connector_id,
                    error_code: ChargePointErrorCode::NoError,
                    status: ChargePointStatus::Charging,
                    info: Some(info),
                    timestamp: Some(now),
                    vendor_id: None,
                    vendor_error_code: None,
                },
            );
            i = i + 1;
        }
        out
    }

    /// The stops still to be delivered, in order.
    pub fn pending_stops(&self) -> (r: Vec<(i32, PendingStop)>)
        ensures
            r@ == pending_stops_spec(self@),
    {
        let ghost txs = self.active@;
        let mut out: Vec<(i32, PendingStop)> = Vec::new();
        let mut i: usize = 0;
        while i < self.active.len()
            invariant
                self.active@ == txs,
                i <= txs.len(),
                out@ == pending_stops_spec(txs.take(i as int)),
            decreases txs.len() - i,
        {
            proof {
                assert(txs.take(i + 1).drop_last() =~= txs.take(i as int));
            }
            let t = &self.active[i];
            if let Some(ps) = t.pending_stop {
                out.push((t.transaction_id, ps));
            }
            i = i + 1;
        }
        assert(txs.take(txs.len() as int) =~= txs);
        out
    }

    /// Applies the outcome of retrying the pending stops after a reconnect:
    /// `delivered[i]` tells whether the `i`-th pending stop (as listed by
    /// `pending_stops`) reached the central system. Delivered stops end their
    /// transactions; undelivered ones stay pending.
    pub fn apply_retry_outcomes(&mut self, delivered: &Vec<bool>)
        ensures
            final(self).cp_id_spec() == old(self).cp_id_spec(),
            final(self)@ == after_retries(old(self)@, delivered@),
    {
        let ghost txs = self.active@;
        let mut out: Vec<ActiveTransaction> = Vec::new();
        let mut rank: usize = 0;
        let mut i: usize = 0;
        while i < self.active.len()
            invariant
                self.active@ == txs,
                i <= txs.len(),
                rank == pending_count(txs.take(i as int)),
                rank <= i,
                out@ == after_retries(txs.take(i as int), delivered@),
            decreases txs.len() - i,
        {
            let t = self.active[i].duplicate();
            proof {
                assert(txs.take(i + 1).drop_last() =~= txs.take(i as int));
                txs.take(i as int).lemma_filter_push(t, |t: ActiveTransaction| t.pending_stop is Some);
                assert(txs.take(i as int).push(t) =~= txs.take(i + 1));
                txs.take(i as int).lemma_filter_len(|t: ActiveTransaction| t.pending_stop is Some);
            }
            if t.pending_stop.is_some() {
                let ok = rank < delivered.len() && delivered[rank];
                if !ok {
                    out.push(t);
                }
                rank = rank + 1;
            } else {
                out.push(t);
            }
            i = i + 1;
        }
        assert(txs.take(txs.len() as int) =~= txs);
        self.active = out;
    }

    /// The limit in force on `connector_id` at `now`, out of the installed
    /// `(connector, profile)` pairs; `now` is the current time, which the
    /// caller reads from its clock.
    pub fn get_limit<L: Copy>(&self, profiles: Vec<(i32, ChargingProfile<L>)>, connector_id: i32, now: Timestamp) -> (r: Option<L>)
        ensures
            r == connector_limit(profiles@, connector_id, now),
    {
        SmartChargingEngine::limit_at(profiles, connector_id, now)
    }
}

/// Appends the sampled value of one reading, when present.
fn push_reading(
    sampled: &mut Vec<SampledValue>,
    value: Option<String>,
    measurand: Measurand,
    unit: UnitOfMeasure,
)
    ensures
        final(sampled)@ == old(sampled)@ + reading(value, measurand, unit),
{
    match value {
        Some(v) => {
            sampled.push(
                SampledValue {
                    value: v,
                    context: Some(ReadingContext::SamplePeriodic),
                    format: None,
                    measurand: Some(measurand),
                    phase: None,
                    location: None,
                    unit: Some(unit),
                },
            );
            assert(final(sampled)@ =~= old(sampled)@ + reading(value, measurand, unit));
        },
        None => {
            assert(old(sampled)@ + reading(value, measurand, unit) =~= old(sampled)@);
        },
    }
}

/// After the central system confirms a stop, no active transaction carries
/// that id, and every other active transaction is still there.
pub proof fn law_delivered_stop_ends_transaction(txs: Seq<ActiveTransaction>, id: i32)
    ensures
        forall|i: int|
            0 <= i < without_transaction(txs, id).len() ==> (#[trigger] without_transaction(txs, id)[i]).transaction_id
                != id,
        forall|i: int|
            0 <= i < txs.len() && (#[trigger] txs[i]).transaction_id != id ==> without_transaction(
                txs,
                id,
            ).contains(txs[i]),
{
    let p = |t: ActiveTransaction| t.transaction_id != id;
    assert forall|i: int| 0 <= i < txs.filter(p).len() implies (#[trigger] txs.filter(p)[i]).transaction_id != id by {
        txs.lemma_filter_pred(p, i);
    }
    assert forall|i: int| 0 <= i < txs.len() && (#[trigger] txs[i]).transaction_id != id implies txs.filter(
        p,
    ).contains(txs[i]) by {
        txs.lemma_filter_contains(p, i);
    }
}

/// A transaction that starts under a fresh id and whose stop is then
/// confirmed leaves the active transactions as they were.
pub proof fn law_start_then_stop_restores(txs: Seq<ActiveTransaction>, tx: ActiveTransaction)
    requires
        forall|i: int| 0 <= i < txs.len() ==> (#[trigger] txs[i]).transaction_id != tx.transaction_id,
    ensures
        without_transaction(txs.push(tx), tx.transaction_id) == txs,
{
    let p = |t: ActiveTransaction| t.transaction_id != tx.transaction_id;
    txs.lemma_filter_push(tx, p);
    lemma_filter_keeps_all(txs, p);
}

proof fn lemma_filter_keeps_all<A>(s: Seq<A>, p: spec_fn(A) -> bool)
    requires
        forall|i: int| 0 <= i < s.len() ==> p(#[trigger] s[i]),
    ensures
        s.filter(p) == s,
    decreases s.len(),
{
    if s.len() > 0 {
        let d = s.drop_last();
        assert forall|i: int| 0 <= i < d.len() implies p(#[trigger] d[i]) by {
            assert(d[i] == s[i]);
        }
        lemma_filter_keeps_all(d, p);
        d.lemma_filter_push(s.last(), p);
        assert(d.push(s.last()) =~= s);
    } else {
        reveal_with_fuel(Seq::<_>::filter, 1);
    }
}

/// Retrying the pending stops never drops a transaction that had no stop
/// pending: those remain, in order, whatever was delivered.
pub proof fn law_retries_keep_running_transactions(txs: Seq<ActiveTransaction>, delivered: Seq<bool>)
    ensures
        after_retries(txs, delivered).filter(|t: ActiveTransaction| t.pending_stop is None) == txs.filter(
            |t: ActiveTransaction| t.pending_stop is None,
        ),
    decreases txs.len(),
{
    let p = |t: ActiveTransaction| t.pending_stop is None;
    if txs.len() == 0 {
        reveal_with_fuel(Seq::<_>::filter, 1);
    } else {
        let d = txs.drop_last();
        let t = txs.last();
        law_retries_keep_running_transactions(d, delivered);
        d.lemma_filter_push(t, p);
        assert(d.push(t) =~= txs);
        after_retries(d, delivered).lemma_filter_push(t, p);
    }
}

/// When no stop reached the central system, every transaction stays active.
pub proof fn law_failed_retries_change_nothing(txs: Seq<ActiveTransaction>, delivered: Seq<bool>)
    requires
        forall|i: int| 0 <= i < delivered.len() ==> !(#[trigger] delivered[i]),
    ensures
        after_retries(txs, delivered) == txs,
    decreases txs.len(),
{
    if txs.len() > 0 {
        law_failed_retries_change_nothing(txs.drop_last(), delivered);
        assert(txs.drop_last().push(txs.last()) =~= txs);
    }
}

proof fn lemma_pending_stop_listed(txs: Seq<ActiveTransaction>, j: int, stop: PendingStop)
    requires
        0 <= j < txs.len(),
        txs[j].pending_stop == Some(stop),
    ensures
        pending_stops_spec(txs).contains((txs[j].transaction_id, stop)),
    decreases txs.len(),
{
    let prev = pending_stops_spec(txs.drop_last());
    if j == txs.len() - 1 {
        let out = prev.push((txs[j].transaction_id, stop));
        assert(out[out.len() - 1] == (txs[j].transaction_id, stop));
    } else {
        assert(txs.drop_last()[j] == txs[j]);
        lemma_pending_stop_listed(txs.drop_last(), j, stop);
        let w = choose|k: int| 0 <= k < prev.len() && prev[k] == (txs[j].transaction_id, stop);
        if let Some(ps) = txs.last().pending_stop {
            let out = prev.push((txs.last().transaction_id, ps));
            assert(out[w] == prev[w]);
        }
    }
}

/// A stop that could not be delivered is among the stops retried on the next
/// connection, with the transaction's id.
pub proof fn law_failed_stop_is_retried(txs: Seq<ActiveTransaction>, id: i32, stop: PendingStop)
    requires
        first_with_id(txs, id) is Some,
    ensures
        ({
            let j = first_with_id(txs, id)->0;
            pending_stops_spec(txs.update(j, ActiveTransaction { pending_stop: Some(stop), ..txs[j] })).contains(
                (id, stop),
            )
        }),
{
    let j = first_with_id(txs, id)->0;
    let u = txs.update(j, ActiveTransaction { pending_stop: Some(stop), ..txs[j] });
    lemma_pending_stop_listed(u, j, stop);
}

/// From an accepted authorization with no reservation anywhere, a start flow
/// reads the connector's reservation, then the charge point's, and then sends
/// `StartTransaction` without a reservation.
pub open spec fn goes_on_to_start(g: StartFlow, s: StartStep, connector_id: i32) -> bool {
    &&& s == StartStep::ReadReservation(connector_id)
    &&& start_next(g, StartInput::Reservation(None)).1 == StartStep::ReadReservation(0)
    &&& start_next(start_next(g, StartInput::Reservation(None)).0, StartInput::Reservation(None)).1
        == StartStep::SendStart(None)
}

/// Whatever source answers for the tag (the local list, the cache or the
/// central system), the flow keeps that answer as the tag's authorization.
/// A refused tag ends the flow as not authorized; an accepted one goes on to
/// the reservations, and with none it reaches `StartTransaction`. An answer
/// from the central system that accepts the tag is cached first.
pub proof fn law_authorization_is_recorded(f: StartFlow, info: IdTagInfo)
    ensures
        f.stage is ListLookup ==> ({
            let (g, s) = start_next(f, StartInput::ListEntry(Some(info)));
            &&& g.auth == Some(info)
            &&& info.status == AuthorizationStatus::Accepted ==> goes_on_to_start(g, s, f.connector_id)
            &&& info.status != AuthorizationStatus::Accepted ==> s == StartStep::Stop(StartOutcome::NotAuthorized)
        }),
        f.stage is CacheLookup ==> ({
            let (g, s) = start_next(f, StartInput::CacheEntry(Some(info)));
            &&& g.auth == Some(info)
            &&& info.status == AuthorizationStatus::Accepted ==> goes_on_to_start(g, s, f.connector_id)
            &&& info.status != AuthorizationStatus::Accepted ==> s == StartStep::Stop(StartOutcome::NotAuthorized)
        }),
        f.stage is CentralAuthorization ==> ({
            let (g, s) = start_next(f, StartInput::Authorized(info));
            if info.status == AuthorizationStatus::Accepted {
                &&& s == StartStep::CacheAuthorization(info)
                &&& start_next(g, StartInput::Cached).0.auth == Some(info)
                &&& goes_on_to_start(start_next(g, StartInput::Cached).0, start_next(g, StartInput::Cached).1, f.connector_id)
            } else {
                &&& g.auth == Some(info)
                &&& s == StartStep::Stop(StartOutcome::NotAuthorized)
            }
        }),
{
}

/// A battery's request with the local list and the cache both missing the
/// tag goes to the central system; a request whose tag the first enabled
/// source holds as accepted reaches `StartTransaction` when nothing is
/// reserved.
pub proof fn law_accepted_tag_starts(
    connector_id: i32,
    id_tag: String,
    meter_start: i32,
    list_enabled: bool,
    cache_enabled: bool,
    info: IdTagInfo,
)
    requires
        info.status == AuthorizationStatus::Accepted,
    ensures
        list_enabled ==> ({
            let (f, s) = start_begin(connector_id, id_tag, meter_start, list_enabled, cache_enabled);
            &&& s == StartStep::ReadListEntry
            &&& start_next(f, StartInput::ListEntry(Some(info))).0.auth == Some(info)
            &&& goes_on_to_start(
                start_next(f, StartInput::ListEntry(Some(info))).0,
                start_next(f, StartInput::ListEntry(Some(info))).1,
                connector_id,
            )
        }),
        !list_enabled && cache_enabled ==> ({
            let (f, s) = start_begin(connector_id, id_tag, meter_start, list_enabled, cache_enabled);
            &&& s == StartStep::ReadCacheEntry
            &&& start_next(f, StartInput::CacheEntry(Some(info))).0.auth == Some(info)
            &&& goes_on_to_start(
                start_next(f, StartInput::CacheEntry(Some(info))).0,
                start_next(f, StartInput::CacheEntry(Some(info))).1,
                connector_id,
            )
        }),
        !list_enabled && !cache_enabled ==> start_begin(connector_id, id_tag, meter_start, list_enabled, cache_enabled).1
            == StartStep::Authorize,
        list_enabled && cache_enabled ==> start_next(
            start_begin(connector_id, id_tag, meter_start, list_enabled, cache_enabled).0,
            StartInput::ListEntry(None),
        ).1 == StartStep::ReadCacheEntry,
        list_enabled && !cache_enabled ==> start_next(
            start_begin(connector_id, id_tag, meter_start, list_enabled, cache_enabled).0,
            StartInput::ListEntry(None),
        ).1 == StartStep::Authorize,
        start_begin(connector_id, id_tag, meter_start, list_enabled, cache_enabled).0.auth is None,
{
    let (f, s) = start_begin(connector_id, id_tag, meter_start, list_enabled, cache_enabled);
    law_authorization_is_recorded(f, info);
    if !list_enabled && cache_enabled {
        law_authorization_is_recorded(f, info);
    }
}

/// A reservation that applies (the connector's, else the charge point's)
/// is used by its own tag, or by a tag whose parent it was made for, and
/// `StartTransaction` carries its id; a reservation for anyone else stops
/// the flow. An accepted tag is needed first.
pub proof fn law_reservations_are_honoured(f: StartFlow, info: IdTagInfo, r: Reservation)
    requires
        f.auth == Some(info),
        f.stage is ConnectorReservation || f.stage is StationReservation,
    ensures
        (r.id_tag@ == f.id_tag@ || (info.parent_id_tag matches Some(p) && p@ == r.id_tag@)) ==> start_next(
            f,
            StartInput::Reservation(Some(r)),
        ).1 == StartStep::SendStart(Some(r.reservation_id)),
        !(r.id_tag@ == f.id_tag@ || (info.parent_id_tag matches Some(p) && p@ == r.id_tag@)) ==> start_next(
            f,
            StartInput::Reservation(Some(r)),
        ).1 == StartStep::Stop(StartOutcome::ReservedForOther),
        f.stage is ConnectorReservation ==> start_next(f, StartInput::Reservation(None)).1
            == StartStep::ReadReservation(0),
        f.stage is StationReservation ==> start_next(f, StartInput::Reservation(None)).1
            == StartStep::SendStart(None),
{
}

/// The reservation that applies to a start is the connector's, else the
/// charge point's; none means the connector is free. It is claimed, with
/// its id, by the tag it was made for or by a tag whose parent it was made
/// for; anyone else finds the connector reserved for another.
pub proof fn law_reservation_check(
    connector_res: Option<Reservation>,
    station_res: Option<Reservation>,
    id_tag: Seq<char>,
    auth: IdTagInfo,
    r: Reservation,
)
    ensures
        connector_res is None && station_res is None ==> reservation_check_spec(connector_res, station_res, id_tag, auth)
            == ReservationCheck::Free,
        (connector_res == Some(r) || (connector_res is None && station_res == Some(r))) ==> {
            let claims = r.id_tag@ == id_tag || (auth.parent_id_tag is Some && auth.parent_id_tag->0@ == r.id_tag@);
            &&& claims ==> reservation_check_spec(connector_res, station_res, id_tag, auth) == ReservationCheck::Claim(
                r.reservation_id,
            )
            &&& !claims ==> reservation_check_spec(connector_res, station_res, id_tag, auth)
                == ReservationCheck::ReservedForOther
        },
{
}

/// Once `StartTransaction` is answered, an accepted answer makes the
/// transaction it names, on the flow's connector, for its tag and meter
/// start, at the time the request went out, with no stop pending: the used
/// reservations are cleared first when one was claimed, then it is
/// persisted, and only then does it become active. A refused answer ends
/// the flow without a transaction.
pub proof fn law_started_transaction_is_persisted_then_activated(
    f: StartFlow,
    rid: Option<i32>,
    response: StartTransactionResponse,
    started_at: Timestamp,
)
    requires
        f.stage == StartStage::Starting(rid),
    ensures
        ({
            let tx = ActiveTransaction {
                transaction_id: response.transaction_id,
                connector_id: f.connector_id,
                id_tag: f.id_tag,
                meter_start: f.meter_start,
                started_at,
                pending_stop: None,
            };
            let (g, s) = start_next(f, StartInput::StartAnswer { response, started_at });
            if response.id_tag_info.status == AuthorizationStatus::Accepted {
                if rid is Some {
                    &&& s == StartStep::ClearReservations
                    &&& start_next(g, StartInput::ReservationsCleared).1 == StartStep::Persist(tx)
                    &&& start_next(start_next(g, StartInput::ReservationsCleared).0, StartInput::Persisted).1
                        == StartStep::Activate(tx)
                } else {
                    &&& s == StartStep::Persist(tx)
                    &&& start_next(g, StartInput::Persisted).1 == StartStep::Activate(tx)
                }
            } else {
                s == StartStep::Stop(StartOutcome::RejectedByCentral)
            }
        }),
{
}

/// The transaction on a connector is the first one recorded there; there
/// is none exactly when no active transaction uses the connector.
pub proof fn law_transaction_on_connector(txs: Seq<ActiveTransaction>, connector_id: i32)
    ensures
        transaction_on_connector_spec(txs, connector_id) is None <==> forall|k: int|
            0 <= k < txs.len() ==> #[trigger] txs[k].connector_id != connector_id,
        transaction_on_connector_spec(txs, connector_id) matches Some(id) ==> exists|j: int|
            #![trigger txs[j]]
            0 <= j < txs.len() && txs[j].connector_id == connector_id && txs[j].transaction_id == id && forall|k: int|
                0 <= k < j ==> #[trigger] txs[k].connector_id != connector_id,
{
    if exists|j: int| 0 <= j < txs.len() && txs[j].connector_id == connector_id {
        let w = choose|j: int| 0 <= j < txs.len() && txs[j].connector_id == connector_id;
        lemma_first_on_connector(txs, connector_id, w);
    }
}

proof fn lemma_first_on_connector(txs: Seq<ActiveTransaction>, connector_id: i32, w: int)
    requires
        0 <= w < txs.len(),
        txs[w].connector_id == connector_id,
    ensures
        exists|j: int|
            0 <= j < txs.len() && txs[j].connector_id == connector_id && forall|k: int|
                0 <= k < j ==> #[trigger] txs[k].connector_id != connector_id,
    decreases w,
{
    if exists|k: int| 0 <= k < w && txs[k].connector_id == connector_id {
        let k = choose|k: int| 0 <= k < w && txs[k].connector_id == connector_id;
        lemma_first_on_connector(txs, connector_id, k);
    } else {
        assert(forall|k: int| 0 <= k < w ==> #[trigger] txs[k].connector_id != connector_id);
    }
}

/// A boolean setting is true exactly when the store holds the text `true`
/// for it; any other text is false, and an absent setting takes its default.
pub proof fn law_config_flag(value: Option<Seq<char>>, default: bool)
    ensures
        value is None ==> config_flag_spec(value, default) == default,
        value is Some ==> (config_flag_spec(value, default) <==> value->0 == "true"@),
{
}

} // verus!
