//! Per-charge-point state that survives restarts: the last boot reply and
//! the active transactions.

use vstd::prelude::*;

use crate::enums::StopReason;
use crate::messages::Timestamp;
use crate::text::{format_i32, int_to_decimal};

verus! {

broadcast use vstd::string::group_string_axioms;

/// Last accepted BootNotification info.
#[derive(Debug, Clone, PartialEq)]
pub struct BootInfo {
    /// The registration status, by its variant name.
    pub status: String,
    pub interval: i32,
    pub last_boot: Timestamp,
}

/// Active transaction record for replay/resume on reconnect.
#[derive(Debug, PartialEq)]
pub struct ActiveTransaction {
    pub transaction_id: i32,
    pub connector_id: i32,
    pub id_tag: String,
    pub meter_start: i32,
    pub started_at: Timestamp,
    /// If set, a `StopTransaction` was issued locally but the CSMS could not
    /// be reached. The next reconnect must retry this stop before the active
    /// transaction is cleared.
    pub pending_stop: Option<PendingStop>,
}

/// A locally-completed stop that has not yet been confirmed by the CSMS.
#[derive(Debug, Clone, Copy, PartialEq, Eq)]
pub struct PendingStop {
    pub meter_stop: i32,
    pub timestamp: Timestamp,
    pub reason: Option<StopReason>,
}

impl ActiveTransaction {
    /// A copy of this record.
    pub fn duplicate(&self) -> (r: ActiveTransaction)
        ensures
            r == *self,
    {
        ActiveTransaction {
            transaction_id: self.transaction_id,
            connector_id: self.connector_id,
            id_tag: self.id_tag.clone(),
            meter_start: self.meter_start,
            started_at: self.started_at,
            pending_stop: self.pending_stop,
        }
    }
}

impl Clone for ActiveTransaction {
    fn clone(&self) -> (r: Self)
        ensures
            r == *self,
    {
        self.duplicate()
    }
}

/// The store key of the last boot reply.
pub open spec fn boot_key_spec() -> Seq<char> {
    "boot"@
}

/// The store key of the last boot reply.
pub fn boot_key() -> (r: &'static str)
    ensures
        r@ == boot_key_spec(),
{
    "boot"
}

/// The prefix under which active transactions are stored.
pub open spec fn tx_prefix_spec() -> Seq<char> {
    "tx/"@
}

/// The prefix under which active transactions are stored.
pub fn tx_prefix() -> (r: &'static str)
    ensures
        r@ == tx_prefix_spec(),
{
    "tx/"
}

/// The store key of an active transaction: `tx/<id>`.
pub fn tx_key(transaction_id: i32) -> (r: String)
    ensures
        r@ == tx_prefix_spec() + int_to_decimal(transaction_id as int),
{
    let mut key = tx_prefix().to_string();
    let id = format_i32(transaction_id);
    key.append(id.as_str());
    key
}

} // verus!
