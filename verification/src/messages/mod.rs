//! OCPP 1.6 message structs. Field names mirror the OCPP 1.6 JSON schemas
//! (camelCase on the wire). Times are `Timestamp`s: nanoseconds since the Unix epoch, UTC.

pub mod authorize;
pub mod boot_notification;
pub mod cancel_reservation;
pub mod change_availability;
pub mod change_configuration;
pub mod clear_cache;
pub mod clear_charging_profile;
pub mod data_transfer;
pub mod diagnostics_status_notification;
pub mod firmware_status_notification;
pub mod get_composite_schedule;
pub mod get_configuration;
pub mod get_diagnostics;
pub mod get_local_list_version;
pub mod heartbeat;
pub mod meter_values;
pub mod remote_start_transaction;
pub mod remote_stop_transaction;
pub mod reserve_now;
pub mod reset;
pub mod send_local_list;
pub mod set_charging_profile;
pub mod start_transaction;
pub mod status_notification;
pub mod stop_transaction;
pub mod trigger_message;
pub mod unlock_connector;
pub mod update_firmware;

pub use authorize::{IdTagInfo, AuthorizeRequest, AuthorizeResponse};
pub use boot_notification::{BootNotificationRequest, BootNotificationResponse};
pub use cancel_reservation::{CancelReservationRequest, CancelReservationResponse};
pub use change_availability::{ChangeAvailabilityRequest, ChangeAvailabilityResponse};
pub use change_configuration::{ChangeConfigurationRequest, ChangeConfigurationResponse};
pub use clear_cache::{ClearCacheRequest, ClearCacheResponse};
pub use clear_charging_profile::{ClearChargingProfileRequest, ClearChargingProfileResponse};
pub use data_transfer::{DataTransferRequest, DataTransferResponse};
pub use diagnostics_status_notification::{DiagnosticsStatusNotificationRequest, DiagnosticsStatusNotificationResponse};
pub use firmware_status_notification::{FirmwareStatusNotificationRequest, FirmwareStatusNotificationResponse};
pub use get_composite_schedule::{GetCompositeScheduleRequest, GetCompositeScheduleResponse};
pub use get_configuration::{GetConfigurationRequest, ConfigurationKey, GetConfigurationResponse};
pub use get_diagnostics::{GetDiagnosticsRequest, GetDiagnosticsResponse};
pub use get_local_list_version::{GetLocalListVersionRequest, GetLocalListVersionResponse};
pub use heartbeat::{HeartbeatRequest, HeartbeatResponse};
pub use meter_values::{SampledValue, MeterValue, MeterValuesRequest, MeterValuesResponse};
pub use remote_start_transaction::{RemoteStartTransactionRequest, RemoteStartTransactionResponse};
pub use remote_stop_transaction::{RemoteStopTransactionRequest, RemoteStopTransactionResponse};
pub use reserve_now::{ReserveNowRequest, ReserveNowResponse};
pub use reset::{ResetRequest, ResetResponse};
pub use send_local_list::{AuthorizationData, SendLocalListRequest, SendLocalListResponse};
pub use set_charging_profile::{ChargingSchedulePeriod, ChargingSchedule, ChargingProfile, SetChargingProfileRequest, SetChargingProfileResponse};
pub use start_transaction::{StartTransactionRequest, StartTransactionResponse};
pub use status_notification::{StatusNotificationRequest, StatusNotificationResponse};
pub use stop_transaction::{StopTransactionRequest, StopTransactionResponse};
pub use trigger_message::{TriggerMessageRequest, TriggerMessageResponse};
pub use unlock_connector::{UnlockConnectorRequest, UnlockConnectorResponse};
pub use update_firmware::{UpdateFirmwareRequest, UpdateFirmwareResponse};

use vstd::prelude::*;

verus! {

/// A point in time: nanoseconds since the Unix epoch, UTC. Every date the
/// calendar of `chrono` holds has one.
pub type Timestamp = i128;

/// Nanoseconds in a second.
pub const NANOS_PER_SECOND: i128 = 1_000_000_000;

} // verus!
