use vstd::prelude::*;

use crate::entry::LogEntry;
use crate::request::NewLog;

verus! {

/// Relies on uuid::Uuid::new_v4 for a random version-4 identifier, read out
/// as its 128-bit value. Nothing is known of the value in advance.
#[verifier::external_body]
fn fresh_id() -> (r: u128) {
    uuid::Uuid::new_v4().as_u128()
}

/// Relies on chrono::Utc::now for the current time, read out as
/// microseconds since the Unix epoch. Nothing is known of the value in
/// advance.
#[verifier::external_body]
fn now_micros() -> (r: i64) {
    chrono::Utc::now().timestamp_micros()
}

/// The complete row for a validated write: a fresh identifier, the current
/// time, and the name and payload as given.
pub fn new_row(cmd: NewLog) -> (r: LogEntry)
    ensures
        r.name == cmd.name,
        r.data == cmd.data,
{
    let id = fresh_id();
    let created = now_micros();
    LogEntry::new(id, cmd.name, cmd.data, created)
}

} // verus!
