//! Charge-point side of an OCPP 1.6J gateway: the protocol layer (frames,
//! actions, messages), the smart-charging engine, and the decisions the
//! adapter takes between the internal devices and the central system.

pub mod text;
pub mod action;
pub mod error;
pub mod json;
pub mod json_text;
pub mod frame;
pub mod version;
pub mod enums;
pub mod messages;
pub mod charging;
pub mod store;
pub mod events;
pub mod transaction;
pub mod handler;
pub mod metadata;
pub mod connectivity;
pub mod device;
pub mod mqtt;
pub mod charge_point;
pub mod gateway;
