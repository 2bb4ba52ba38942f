//! The gateway's configuration, and what the supervisor derives from it for
//! each charge point: the device backend to open and the URL to connect to.

use vstd::prelude::*;

use crate::mqtt::MqttDeviceConfig;

verus! {

broadcast use vstd::string::group_string_axioms;

/// How the gateway authenticates to the central system (OCPP security
/// profiles). Paths name PEM files.
#[derive(Debug, Clone, PartialEq)]
pub enum SecurityConfig {
    Plain,
    TlsBasic { username: String, password: String },
    Mtls { ca_pem_path: Option<String>, client_cert_pem_path: String, client_key_pem_path: String },
}

/// Where the persistent store lives.
#[derive(Debug, Clone, PartialEq)]
pub struct StoreConfig {
    pub path: String,
}

/// The MQTT broker the batteries talk through.
#[derive(Debug, Clone, PartialEq)]
pub struct MqttBrokerConfig {
    pub host: String,
    pub port: u16,
    pub username: Option<String>,
    pub password: Option<String>,
    /// e.g. `"batteries"` -> topics `batteries/<id>/events|commands`
    pub topic_prefix: String,
    pub client_id: String,
}

/// Which backend reaches a charge point's battery.
#[derive(Debug, Clone, PartialEq)]
pub enum DeviceBackendConfig {
    Mqtt { battery_id: String },
    Grpc { battery_id: String },
}

/// One charge point the gateway runs.
#[derive(Debug, Clone, PartialEq)]
pub struct ChargePointEntry {
    /// Charge-point id (also the WS URL suffix).
    pub id: String,
    pub vendor: String,
    pub model: String,
    pub device: DeviceBackendConfig,
}

/// The call timeout when the configuration names none, in seconds.
pub fn default_call_timeout() -> (r: u64)
    ensures
        r == 30,
{
    30
}

/// The topic prefix when the configuration names none.
pub fn default_topic_prefix() -> (r: String)
    ensures
        r@ == "batteries"@,
{
    "batteries".to_string()
}

/// Why the supervisor cannot start a charge point.
#[derive(Debug, Clone, PartialEq)]
pub enum SupervisorError {
    /// A charge point uses the MQTT backend but no broker is configured.
    MissingMqttBroker,
    /// The central system's base URL and the charge point's id do not make
    /// a URL; the charge point's id is given.
    BadChargePointUrl(String),
}

/// The device backend to open for a charge point.
#[derive(Debug, Clone, PartialEq)]
pub enum DevicePlan {
    /// Connect to the broker with this configuration.
    Mqtt(MqttDeviceConfig),
    /// Wait for the battery with this id on the gRPC bus.
    Grpc(String),
}

fn copy_opt(o: &Option<String>) -> (r: Option<String>)
    ensures
        same_opt_text(r, *o),
{
    match o {
        Some(s) => Some(s.clone()),
        None => None,
    }
}

/// The MQTT client id of a charge point: `<client id>-<charge point id>`.
pub open spec fn mqtt_client_id(client_id: Seq<char>, cp_id: Seq<char>) -> Seq<char> {
    client_id + "-"@ + cp_id
}

/// Two optional texts hold the same characters.
pub open spec fn same_opt_text(a: Option<String>, b: Option<String>) -> bool {
    match (a, b) {
        (Some(x), Some(y)) => x@ == y@,
        (None, None) => true,
        _ => false,
    }
}

/// `c` connects battery `battery_id` of charge point `cp_id` through `broker`.
pub open spec fn is_mqtt_device_config(
    c: MqttDeviceConfig,
    broker: MqttBrokerConfig,
    battery_id: Seq<char>,
    cp_id: Seq<char>,
) -> bool {
    &&& c.broker_host@ == broker.host@
    &&& c.broker_port == broker.port
    &&& c.client_id@ == mqtt_client_id(broker.client_id@, cp_id)
    &&& same_opt_text(c.username, broker.username)
    &&& same_opt_text(c.password, broker.password)
    &&& c.battery_id@ == battery_id
    &&& c.topic_prefix@ == broker.topic_prefix@
}

/// The MQTT connection of one charge point's battery: the broker's settings,
/// a client id of its own, and the battery's id.
pub fn mqtt_device_config(broker: &MqttBrokerConfig, battery_id: &str, cp_id: &str) -> (r: MqttDeviceConfig)
    ensures
        is_mqtt_device_config(r, *broker, battery_id@, cp_id@),
{
    let mut client_id = broker.client_id.clone();
    client_id.append("-");
    client_id.append(cp_id);
    MqttDeviceConfig {
        broker_host: broker.host.clone(),
        broker_port: broker.port,
        client_id,
        username: copy_opt(&broker.username),
        password: copy_opt(&broker.password),
        battery_id: battery_id.to_string(),
        topic_prefix: broker.topic_prefix.clone(),
    }
}

/// The backend a charge point's battery is reached through. The MQTT
/// backend needs a broker: without one the charge point cannot start.
pub fn device_plan(cp: &ChargePointEntry, mqtt: &Option<MqttBrokerConfig>) -> (r: Result<DevicePlan, SupervisorError>)
    ensures
        match cp.device {
            DeviceBackendConfig::Mqtt { battery_id } => match *mqtt {
                None => r == Err::<DevicePlan, SupervisorError>(SupervisorError::MissingMqttBroker),
                Some(b) => r matches Ok(DevicePlan::Mqtt(c)) && is_mqtt_device_config(c, b, battery_id@, cp.id@),
            },
            DeviceBackendConfig::Grpc { battery_id } => r matches Ok(DevicePlan::Grpc(id)) && id@ == battery_id@,
        },
{
    match &cp.device {
        DeviceBackendConfig::Mqtt { battery_id } => match mqtt {
            None => Err(SupervisorError::MissingMqttBroker),
            Some(b) => Ok(DevicePlan::Mqtt(mqtt_device_config(b, battery_id.as_str(), cp.id.as_str()))),
        },
        DeviceBackendConfig::Grpc { battery_id } => Ok(DevicePlan::Grpc(battery_id.clone())),
    }
}

/// The URL that `url::Url::join` makes of `input` against the URL that
/// `url::Url::parse` reads from `base`, as text; `None` where either fails.
pub uninterp spec fn joined_url(base: Seq<char>, input: Seq<char>) -> Option<Seq<char>>;

/// Calls `url::Url::parse` on `base` and `Url::join` with `input` on the
/// result, and returns the serialization (`Url::as_str`) of the joined URL.
/// The contract claims only that the result is the one `joined_url` names for
/// these arguments: URL resolution is the url crate's.
#[verifier::external_body]
fn join_url(base: &str, input: &str) -> (r: Option<String>)
    ensures
        match r {
            Some(s) => joined_url(base@, input@) == Some(s@),
            None => joined_url(base@, input@) is None,
        },
{
    match url::Url::parse(base) {
        Ok(b) => match b.join(input) {
            Ok(u) => Some(u.as_str().to_string()),
            Err(_) => None,
        },
        Err(_) => None,
    }
}

/// The URL a charge point connects to: its id resolved against the central
/// system's base URL.
pub fn charge_point_url(base_url: &str, cp_id: &str) -> (r: Result<String, SupervisorError>)
    ensures
        match joined_url(base_url@, cp_id@) {
            Some(u) => r matches Ok(s) && s@ == u,
            None => r matches Err(SupervisorError::BadChargePointUrl(id)) && id@ == cp_id@,
        },
{
    match join_url(base_url, cp_id) {
        Some(u) => Ok(u),
        None => Err(SupervisorError::BadChargePointUrl(cp_id.to_string())),
    }
}

} // verus!
