//! The MQTT device backend: where a battery's events and commands travel.
//!
//! A battery publishes its events on `<prefix>/<battery_id>/events` and
//! listens for commands on `<prefix>/<battery_id>/commands`.

use vstd::prelude::*;

verus! {

broadcast use vstd::string::group_string_axioms;

/// How to reach one battery over MQTT.
#[derive(Debug, Clone, PartialEq)]
pub struct MqttDeviceConfig {
    pub broker_host: String,
    pub broker_port: u16,
    pub client_id: String,
    pub username: Option<String>,
    pub password: Option<String>,
    pub battery_id: String,
    pub topic_prefix: String,
}

/// `<prefix>/<battery_id>/<leaf>`.
pub open spec fn battery_topic(prefix: Seq<char>, battery_id: Seq<char>, leaf: Seq<char>) -> Seq<char> {
    prefix + "/"@ + battery_id + "/"@ + leaf
}

fn topic(prefix: &str, battery_id: &str, leaf: &str) -> (r: String)
    ensures
        r@ == battery_topic(prefix@, battery_id@, leaf@),
{
    let mut t = prefix.to_string();
    t.append("/");
    t.append(battery_id);
    t.append("/");
    t.append(leaf);
    t
}

impl MqttDeviceConfig {
    /// The topic the battery publishes its events on.
    pub fn event_topic(&self) -> (r: String)
        ensures
            r@ == battery_topic(self.topic_prefix@, self.battery_id@, "events"@),
    {
        topic(self.topic_prefix.as_str(), self.battery_id.as_str(), "events")
    }

    /// The topic the battery listens for commands on.
    pub fn cmd_topic(&self) -> (r: String)
        ensures
            r@ == battery_topic(self.topic_prefix@, self.battery_id@, "commands"@),
    {
        topic(self.topic_prefix.as_str(), self.battery_id.as_str(), "commands")
    }

    /// The broker credentials: only when both a user name and a password
    /// are configured.
    pub fn credentials(&self) -> (r: Option<(String, String)>)
        ensures
            match (self.username, self.password) {
                (Some(u), Some(p)) => r matches Some((ru, rp)) && ru@ == u@ && rp@ == p@,
                _ => r is None,
            },
    {
        match (&self.username, &self.password) {
            (Some(u), Some(p)) => Some((u.clone(), p.clone())),
            _ => None,
        }
    }
}

} // verus!
