//! The one place where the library reads the system clock.

use vstd::prelude::*;

verus! {

/// Relies on chrono's `Utc::now` for the current instant and on
/// `DateTime::timestamp_millis` to render it as milliseconds since the Unix
/// epoch. `Utc::now` aborts if the system clock is before the epoch, so a
/// returned value is never negative; nothing else can be promised of a
/// clock reading.
#[verifier::external_body]
fn now_millis() -> (r: i64)
    ensures
        r >= 0,
{
    chrono::Utc::now().timestamp_millis()
}

/// The current time in milliseconds since the Unix epoch.
pub fn clock_now_ms() -> (r: u64) {
    let raw = now_millis();
    raw as u64
}

} // verus!
