//! Readings of the clock.

use vstd::prelude::*;

verus! {

/// Largest Unix second that a UTC date-time can hold (end of year 262142).
pub open spec fn max_utc_seconds() -> int {
    8_210_266_876_799
}

/// Smallest Unix second that a UTC date-time can hold (start of year -262143).
pub open spec fn min_utc_seconds() -> int {
    -8_334_601_315_200
}

/// Handle to an instant of the system clock.
#[verifier::external_type_specification]
#[verifier::external_body]
pub struct ExSystemTime(std::time::SystemTime);

/// Calls `std::time::SystemTime::now()`. Nothing is claimed of the instant.
#[verifier::external_body]
fn system_time_now() -> std::time::SystemTime {
    std::time::SystemTime::now()
}

/// Calls `SystemTime::duration_since(UNIX_EPOCH)` and keeps the whole seconds
/// of the span; `None` where the instant lies before the epoch (the call's
/// error). Nothing is claimed of the value: it is the clock's reading.
#[verifier::external_body]
fn seconds_since_epoch(t: &std::time::SystemTime) -> Option<u64> {
    match t.duration_since(std::time::UNIX_EPOCH) {
        Ok(d) => Some(d.as_secs()),
        Err(_) => None,
    }
}

/// The current Unix time in whole seconds, as `chrono::Utc::now().timestamp()`
/// gives it; `None` where the clock reads before the epoch or past the last
/// instant a UTC date-time can hold.
pub(crate) fn now_seconds() -> (r: Option<i64>)
    ensures
        r matches Some(t) ==> 0 <= t <= max_utc_seconds(),
{
    let t = system_time_now();
    match seconds_since_epoch(&t) {
        Some(s) => {
            if s <= 8_210_266_876_799 {
                Some(s as i64)
            } else {
                None
            }
        },
        None => None,
    }
}

} // verus!
