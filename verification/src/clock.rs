//! Wall-clock readings, in milliseconds since the Unix epoch.
use vstd::prelude::*;
use std::time::{Duration, Instant, SystemTime, UNIX_EPOCH};

verus! {

#[verifier::external_type_specification]
#[verifier::external_body]
pub struct ExSystemTime(SystemTime);

/// `SystemTime::now`: the current reading of the system clock. Nothing is
/// claimed of it: it is whatever the clock says.
#[verifier::external_body]
fn system_now() -> SystemTime {
    SystemTime::now()
}

/// `SystemTime::duration_since` measured from `UNIX_EPOCH`: the time elapsed
/// since the epoch, `None` when the reading is earlier than the epoch. Nothing
/// is claimed of the duration.
#[verifier::external_body]
fn since_unix_epoch(reading: &SystemTime) -> Option<Duration> {
    reading.duration_since(UNIX_EPOCH).ok()
}

/// `Duration::as_millis`: the whole milliseconds of `elapsed`. The duration is
/// opaque here, so nothing is claimed of the number.
#[verifier::external_body]
fn whole_millis(elapsed: &Duration) -> u128 {
    elapsed.as_millis()
}

/// The system clock in whole milliseconds since the Unix epoch; `None` when it
/// reads earlier than the epoch.
fn read_unix_millis() -> Option<u128> {
    let now = system_now();
    match since_unix_epoch(&now) {
        Some(elapsed) => Some(whole_millis(&elapsed)),
        None => None,
    }
}

/// A clock reading as a database timestamp: an error when the clock was before
/// the epoch or the reading does not fit a signed 64-bit integer.
pub fn timestamp_from_reading(reading: Option<u128>) -> (res: Result<i64, String>)
    ensures
        reading is None ==> (res matches Err(e) && e@ == "system clock is before the Unix epoch"@),
        reading matches Some(ms) ==> (ms <= i64::MAX ==> res == Ok::<i64, String>(ms as i64)),
        reading matches Some(ms) ==> (ms > i64::MAX ==> (res matches Err(e)
            && e@ == "current time does not fit in SQLite integer"@)),
{
    match reading {
        None => Err(String::from_str("system clock is before the Unix epoch")),
        Some(ms) => {
            if ms <= 0x7fff_ffff_ffff_ffffu128 {
                Ok(ms as i64)
            } else {
                Err(String::from_str("current time does not fit in SQLite integer"))
            }
        },
    }
}

/// Milliseconds since the Unix epoch for a history entry: the clock's reading,
/// or the error for a clock before the epoch or beyond what a signed 64-bit
/// timestamp holds. Which of these comes depends on the clock alone.
pub fn unix_time_millis() -> (res: Result<i64, String>)
    ensures
        match res {
            Ok(ms) => ms >= 0,
            Err(e) => e@ == "system clock is before the Unix epoch"@
                || e@ == "current time does not fit in SQLite integer"@,
        },
{
    timestamp_from_reading(read_unix_millis())
}

#[verifier::external_type_specification]
#[verifier::external_body]
pub struct ExInstant(Instant);

/// `Instant::now`: a reading of the monotonic clock. Nothing is claimed of it.
#[verifier::external_body]
pub(crate) fn monotonic_now() -> Instant {
    Instant::now()
}

/// `Instant::elapsed`: the time the monotonic clock has advanced since `origin`
/// (zero rather than negative). Nothing is claimed of the duration.
#[verifier::external_body]
fn elapsed_since(origin: &Instant) -> Duration {
    origin.elapsed()
}

/// Whole milliseconds as a `u64`, saturating beyond `u64::MAX`.
pub fn saturating_millis(ms: u128) -> (r: u64)
    ensures
        r == if ms <= u64::MAX { ms as u64 } else { u64::MAX },
{
    if ms <= 0xffff_ffff_ffff_ffffu128 {
        ms as u64
    } else {
        0xffff_ffff_ffff_ffffu64
    }
}

/// Whole milliseconds the monotonic clock has advanced since `origin`,
/// saturating; the value is whatever the clock says.
pub(crate) fn millis_since(origin: &Instant) -> u64 {
    let elapsed = elapsed_since(origin);
    saturating_millis(whole_millis(&elapsed))
}

} // verus!
