//! Wall-clock readings for the debug timestamps of the output record.

use vstd::prelude::*;

verus! {

/// Relies on std's `SystemTime::now`, chrono's `From<SystemTime>` and
/// `DateTime::timestamp_millis`: the current wall-clock time as whole
/// milliseconds since the Unix epoch, negative on a host whose clock reads
/// before the epoch. Nothing is promised of the value: the clock is not
/// monotonic.
#[verifier::external_body]
fn utc_now_ms() -> i64 {
    chrono::DateTime::<chrono::Utc>::from(std::time::SystemTime::now()).timestamp_millis()
}

/// The current wall-clock time in whole milliseconds since the Unix epoch,
/// clamped to zero. Nothing is promised of the value: the clock is not
/// monotonic.
pub fn current_time_ms() -> u64 {
    let t = utc_now_ms();
    if t < 0 {
        0
    } else {
        t as u64
    }
}

} // verus!
