//! The clock.

use std::time::Duration;
use std::time::SystemTime;
use vstd::prelude::*;
use crate::primitive_types::Time;

verus! {

/// A reading of the system clock.
#[verifier::external_type_specification]
#[verifier::external_body]
pub struct ExSystemTime(SystemTime);

/// Reads the system clock with `SystemTime::now`. Nothing is known of the
/// reading.
#[verifier::external_body]
fn system_now() -> SystemTime {
    SystemTime::now()
}

/// The time from the start of 1970 to `reading`, by
/// `SystemTime::duration_since`; none when the reading lies before it.
#[verifier::external_body]
fn since_epoch(reading: &SystemTime) -> Option<Duration> {
    reading.duration_since(SystemTime::UNIX_EPOCH).ok()
}

/// The whole microseconds in `span`, by `Duration::as_micros`.
#[verifier::external_body]
fn whole_micros(span: &Duration) -> u128 {
    span.as_micros()
}

/// The time that stands for a count of microseconds since the start of
/// 1970: the count itself while it fits, the largest time beyond that, and
/// zero when there is no count.
pub open spec fn time_of(micros: Option<u128>) -> Time {
    match micros {
        Some(count) => if count > u64::MAX {
            u64::MAX
        } else {
            count as u64
        },
        None => 0,
    }
}

/// Turns a count of microseconds into a time.
pub fn time_from_micros(micros: Option<u128>) -> (time: Time)
    ensures
        time == time_of(micros),
{
    match micros {
        Some(count) => if count > 0xffff_ffff_ffff_ffffu128 {
            u64::MAX
        } else {
            count as u64
        },
        None => 0,
    }
}

/// The current time in microseconds, as the system clock tells it.
pub fn get_time() -> Time {
    let reading = system_now();
    match since_epoch(&reading) {
        Some(span) => time_from_micros(Some(whole_micros(&span))),
        None => time_from_micros(None),
    }
}

} // verus!
