//! Points in time, read from the system clock.

use std::time::SystemTime;
use vstd::prelude::*;

verus! {

/// `std::time::SystemTime`, a reading of the system clock; opaque here.
#[verifier::external_type_specification]
#[verifier::external_body]
pub struct ExSystemTime(SystemTime);

/// A point in time in UTC: whole seconds since 1970-01-01T00:00:00Z
/// (negative before it) and the nanoseconds past that second.
#[derive(Clone, Copy, Debug, PartialEq, Eq, Structural)]
pub struct Timestamp {
    /// Seconds since the Unix epoch, rounded down.
    pub seconds: i64,
    /// Nanoseconds past `seconds`.
    pub nanoseconds: u32,
}

/// One second in nanoseconds.
pub open spec fn nanos_per_second() -> int {
    1_000_000_000
}

/// The time of a timestamp, in nanoseconds since the Unix epoch.
pub open spec fn total_nanos(t: Timestamp) -> int {
    t.seconds * nanos_per_second() + t.nanoseconds
}

/// The time that an offset from the Unix epoch stands for, in nanoseconds:
/// `Ok` holds how long after the epoch, `Err` how long before it, each as
/// whole seconds and nanoseconds past them.
pub open spec fn offset_nanos(offset: Result<(u64, u32), (u64, u32)>) -> int {
    match offset {
        Ok((s, n)) => s * nanos_per_second() + n,
        Err((s, n)) => -(s * nanos_per_second() + n),
    }
}

/// Calls `std::time::SystemTime::now`. The reading depends on the clock
/// alone, so nothing is stated of it.
#[verifier::external_body]
fn system_now() -> (t: SystemTime) {
    SystemTime::now()
}

/// Calls `SystemTime::duration_since` with `UNIX_EPOCH`, and takes the
/// duration apart with `Duration::as_secs` and `Duration::subsec_nanos`:
/// `Ok` with how long after the epoch the time is, or, for a time before the
/// epoch, `Err` with how long before it (`SystemTimeError::duration`). The
/// duration depends on the clock reading, which is opaque here; the standard
/// library documents that the sub-second nanoseconds are below one second.
#[verifier::external_body]
fn since_unix_epoch(t: &SystemTime) -> (r: Result<(u64, u32), (u64, u32)>)
    ensures
        r matches Ok((_, n)) ==> n < 1_000_000_000,
        r matches Err((_, n)) ==> n < 1_000_000_000,
{
    match t.duration_since(SystemTime::UNIX_EPOCH) {
        Ok(d) => Ok((d.as_secs(), d.subsec_nanos())),
        Err(e) => Err((e.duration().as_secs(), e.duration().subsec_nanos())),
    }
}

/// The timestamp for an offset from the Unix epoch (`Ok`: after it, `Err`:
/// before it). It stands for the same time whenever the whole seconds fit in
/// an `i64`; beyond that it is the latest (after) or earliest (before)
/// timestamp.
pub fn timestamp_from_epoch_offset(offset: Result<(u64, u32), (u64, u32)>) -> (t: Timestamp)
    requires
        offset matches Ok((_, n)) ==> n < 1_000_000_000,
        offset matches Err((_, n)) ==> n < 1_000_000_000,
    ensures
        t.nanoseconds < 1_000_000_000,
        offset matches Ok((s, _)) && s <= i64::MAX ==> total_nanos(t) == offset_nanos(offset),
        offset matches Err((s, _)) && s <= i64::MAX ==> total_nanos(t) == offset_nanos(offset),
        offset matches Ok((s, _)) && s > i64::MAX ==> t == (Timestamp {
            seconds: i64::MAX,
            nanoseconds: 999_999_999,
        }),
        offset matches Err((s, _)) && s > i64::MAX ==> t == (Timestamp { seconds: i64::MIN, nanoseconds: 0 }),
{
    match offset {
        Ok((s, n)) => {
            if s <= i64::MAX as u64 {
                Timestamp { seconds: s as i64, nanoseconds: n }
            } else {
                Timestamp { seconds: i64::MAX, nanoseconds: 999_999_999 }
            }
        },
        Err((s, n)) => {
            if s > i64::MAX as u64 {
                Timestamp { seconds: i64::MIN, nanoseconds: 0 }
            } else if n == 0 {
                Timestamp { seconds: -(s as i64), nanoseconds: 0 }
            } else {
                Timestamp { seconds: -(s as i64) - 1, nanoseconds: 1_000_000_000 - n }
            }
        },
    }
}

/// The current time in UTC, read from the system clock. A clock that reads
/// before 1970 gives a negative timestamp.
pub fn now_utc() -> (t: Timestamp)
    ensures
        t.nanoseconds < 1_000_000_000,
{
    let now = system_now();
    timestamp_from_epoch_offset(since_unix_epoch(&now))
}

} // verus!
