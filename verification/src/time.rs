//! The current time, read once per stamping operation.
//!
//! Timestamps are carried as milliseconds since the epoch; a clock
//! reading from before the epoch is clamped to zero so that every
//! timestamp fits an unsigned field.

use vstd::prelude::*;

verus! {

/// Relies on `chrono::Utc::now` and `chrono::DateTime::timestamp_millis`:
/// the current time in milliseconds since the epoch.  Nothing is assumed
/// of the value.
#[verifier::external_body]
fn now_millis_raw() -> (r: i64) {
    chrono::Utc::now().timestamp_millis()
}

/// The current time in milliseconds since the epoch, clamped to zero
/// for any clock reading before it.
pub fn current_millis() -> (r: u64) {
    let raw = now_millis_raw();
    if raw < 0 {
        0
    } else {
        raw as u64
    }
}

} // verus!
