use vstd::prelude::*;
use std::time::{Duration, SystemTime};

verus! {

#[verifier::external_type_specification]
#[verifier::external_body]
pub struct ExSystemTime(std::time::SystemTime);

/// Calls `std::time::SystemTime::now`. Nothing is claimed of the time it
/// returns: it is whatever the system clock reads.
#[verifier::external_body]
fn system_time_now() -> SystemTime {
    SystemTime::now()
}

/// Calls `SystemTime::duration_since(UNIX_EPOCH)`; `None` where the time
/// lies before the epoch. Nothing is claimed of the duration: it depends on
/// the opaque time.
#[verifier::external_body]
fn duration_since_epoch(time: &SystemTime) -> Option<Duration> {
    time.duration_since(std::time::UNIX_EPOCH).ok()
}

/// Calls `Duration::as_secs`, the whole seconds of the duration. Nothing is
/// claimed of the number: the duration is opaque here.
#[verifier::external_body]
fn whole_secs(duration: &Duration) -> u64 {
    duration.as_secs()
}

/// The Unix time that a reading of the clock gives: the seconds taken as an
/// `i64` (wrapping, as `as` does), or 0 where the clock read before the epoch.
pub open spec fn unix_secs_spec(elapsed: Option<u64>) -> int {
    match elapsed {
        Some(secs) => (secs as i64) as int,
        None => 0,
    }
}

/// Turns the whole seconds since the epoch, if any, into a Unix time.
pub fn unix_secs_from(elapsed: Option<u64>) -> (secs: i64)
    ensures
        secs == unix_secs_spec(elapsed),
{
    match elapsed {
        Some(s) => s as i64,
        None => 0,
    }
}

/// The current Unix time in seconds, or 0 where the clock reads before the
/// epoch. Nothing is stated of the value: any `i64` can come of a clock
/// reading, since the seconds are cast with wrapping; what is done with the
/// reading is `unix_secs_from`.
pub fn now_unix_secs() -> i64 {
    let now = system_time_now();
    let elapsed = match duration_since_epoch(&now) {
        Some(duration) => Some(whole_secs(&duration)),
        None => None,
    };
    unix_secs_from(elapsed)
}

/// A reading of whole seconds that fits an `i64` is the Unix time itself;
/// a clock before the epoch gives 0.
pub proof fn law_unix_secs(secs: u64)
    ensures
        secs <= i64::MAX ==> unix_secs_spec(Some(secs)) == secs,
        unix_secs_spec(None) == 0,
{
}

} // verus!
