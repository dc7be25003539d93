//! The wall clock, read through `std::time`.

use std::time::{Duration, SystemTime, SystemTimeError, UNIX_EPOCH};
use vstd::prelude::*;

verus! {

/// `SystemTime` of std: a reading of the system clock. It is carried
/// through unread.
#[verifier::external_type_specification]
#[verifier::external_body]
pub struct ExSystemTime(SystemTime);

/// `SystemTimeError` of std: what `duration_since` reports when the clock
/// reads a time before the one it is compared with. It is carried through
/// unread.
#[verifier::external_type_specification]
#[verifier::external_body]
pub struct ExSystemTimeError(SystemTimeError);

/// `SystemTime::now` of std: the system clock's reading. Nothing is
/// promised of it.
pub assume_specification[ SystemTime::now ]() -> (now: SystemTime)
;

/// `SystemTime::duration_since` of std, taken from `UNIX_EPOCH`: the time
/// elapsed from the epoch to `time`, or an error when `time` lies before the
/// epoch. Nothing is promised of which it is.
#[verifier::external_body]
fn since_epoch(time: &SystemTime) -> (elapsed: Result<Duration, SystemTimeError>) {
    time.duration_since(UNIX_EPOCH)
}

/// `Duration::as_secs` of std: the whole seconds of a duration.
pub assume_specification[ Duration::as_secs ](duration: &Duration) -> (seconds: u64)
;

/// The wall clock in whole seconds since the Unix epoch; 0 when the clock
/// reads a time before the epoch.
pub fn current_timestamp() -> (seconds: u64)
    ensures
        exists|elapsed: Option<u64>| seconds == #[trigger] timestamp_of(elapsed),
{
    let now = SystemTime::now();
    let elapsed = match since_epoch(&now) {
        Ok(elapsed) => Some(elapsed.as_secs()),
        Err(_) => None,
    };
    timestamp_from(elapsed)
}

/// The timestamp that a clock reading stands for: the whole seconds that
/// have elapsed since the epoch, and 0 for a reading before the epoch, which
/// has none.
pub open spec fn timestamp_of(elapsed: Option<u64>) -> u64 {
    match elapsed {
        Some(seconds) => seconds,
        None => 0,
    }
}

/// Turns a clock reading into a timestamp. A reading before the epoch does
/// not fail and does not go below zero: it counts as the epoch itself.
pub fn timestamp_from(elapsed: Option<u64>) -> (seconds: u64)
    ensures
        seconds == timestamp_of(elapsed),
{
    match elapsed {
        Some(seconds) => seconds,
        None => 0,
    }
}

} // verus!
