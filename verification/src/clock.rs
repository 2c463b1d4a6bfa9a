//! Wall-clock time, through `chrono`.
use vstd::prelude::*;

verus! {

/// A point in time as seconds and nanoseconds since the Unix epoch.
#[derive(Debug, Clone, Copy, PartialEq, Eq, Structural)]
pub struct Timestamp {
    pub seconds: i64,
    pub nanos: i32,
}

/// The first second `chrono` represents: January 1 of year -262143, 00:00:00 UTC.
pub const MIN_TIMESTAMP_SECONDS: i64 = -8334601228800;

/// The last second `chrono` represents: December 31 of year 262142, 23:59:59 UTC.
pub const MAX_TIMESTAMP_SECONDS: i64 = 8210266876799;

/// Whether `chrono::DateTime::<Utc>::from_timestamp(seconds, nanos as u32)`
/// names a point in time: the day lies in `chrono`'s date range, and the
/// nanoseconds stay below two seconds' worth, exceeding one second only in
/// a leap second (the last second of a minute).
pub open spec fn timestamp_representable(seconds: i64, nanos: i32) -> bool {
    &&& MIN_TIMESTAMP_SECONDS <= seconds <= MAX_TIMESTAMP_SECONDS
    &&& 0 <= nanos < 2_000_000_000
    &&& (nanos < 1_000_000_000 || seconds % 60 == 59)
}

/// Whether a timestamp names a point in time `chrono` represents.
pub fn is_representable(t: Timestamp) -> (r: bool)
    ensures
        r == timestamp_representable(t.seconds, t.nanos),
{
    if !(MIN_TIMESTAMP_SECONDS <= t.seconds && t.seconds <= MAX_TIMESTAMP_SECONDS && 0 <= t.nanos && t.nanos
        < 2_000_000_000) {
        return false;
    }
    if t.nanos < 1_000_000_000 {
        return true;
    }
    // The second of the minute, counted from the minute's start also
    // before the epoch.
    let shifted: i64 = t.seconds - MIN_TIMESTAMP_SECONDS;
    assert(MIN_TIMESTAMP_SECONDS % 60 == 0);
    assert(shifted % 60 == t.seconds % 60) by (nonlinear_arith)
        requires
            shifted == t.seconds - MIN_TIMESTAMP_SECONDS,
            MIN_TIMESTAMP_SECONDS % 60 == 0,
    ;
    shifted % 60 == 59
}

/// The current time, read once, with its millisecond count.
#[derive(Debug, Clone, Copy, PartialEq, Eq, Structural)]
pub struct Instant {
    pub timestamp: Timestamp,
    /// `timestamp_millis()`: whole seconds times 1000 plus the sub-second
    /// milliseconds.
    pub millis: i64,
}

/// `chrono::Utc::now()`, as `timestamp()`, `timestamp_subsec_nanos()` and
/// `timestamp_millis()` of one reading.  The reading depends on the clock;
/// `chrono` computes the milliseconds as `timestamp() * 1000 +
/// timestamp_subsec_millis()`.
#[verifier::external_body]
pub(crate) fn now_instant() -> (r: Instant)
    ensures
        0 <= r.timestamp.nanos < 2_000_000_000,
        timestamp_representable(r.timestamp.seconds, r.timestamp.nanos),
        r.millis == r.timestamp.seconds * 1000 + r.timestamp.nanos / 1_000_000,
{
    let t = chrono::Utc::now();
    Instant {
        timestamp: Timestamp { seconds: t.timestamp(), nanos: t.timestamp_subsec_nanos() as i32 },
        millis: t.timestamp_millis(),
    }
}

/// The current time.
pub fn now() -> (r: Timestamp)
    ensures
        0 <= r.nanos < 2_000_000_000,
        timestamp_representable(r.seconds, r.nanos),
{
    now_instant().timestamp
}

} // verus!
