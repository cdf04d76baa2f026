//! Block time: epoch seconds, checked against the calendar range of `chrono`.
use chrono::TimeZone;
use vstd::prelude::*;

verus! {

/// A point in time, in whole seconds since 1970-01-01T00:00:00Z.
#[derive(Clone, Copy, Debug, PartialEq, Eq, Structural)]
pub struct UtcTime {
    pub secs: i64,
}

/// A span of seconds on either side of the epoch (about 253,000 years) that
/// the calendar certainly represents.
pub const CALENDAR_SPAN_SECS: i64 = 8_000_000_000_000;

/// Relies on `chrono::Utc.timestamp_opt(secs, 0)`: a single instant whose
/// `timestamp()` is `secs` when the day falls within chrono's calendar
/// (years -262143 to 262142, which holds the span above), nothing otherwise.
#[verifier::external_body]
fn calendar_instant(secs: i64) -> (r: Option<i64>)
    ensures
        r is Some ==> r == Some(secs),
        -CALENDAR_SPAN_SECS <= secs <= CALENDAR_SPAN_SECS ==> r == Some(secs),
{
    match chrono::Utc.timestamp_opt(secs, 0).single() {
        Some(t) => Some(t.timestamp()),
        None => None,
    }
}

/// Whether `t` is the instant read from the epoch-seconds field value `ts`:
/// that many seconds after the epoch, or the epoch itself where the value does
/// not fit in `i64` or the calendar cannot hold that instant.
pub open spec fn is_block_time(ts: u64, t: UtcTime) -> bool {
    if ts > i64::MAX {
        t.secs == 0
    } else {
        &&& (t.secs == ts || t.secs == 0)
        &&& (ts <= CALENDAR_SPAN_SECS ==> t.secs == ts)
    }
}

/// The instant of a block's decoded epoch-seconds field.
pub fn block_time(ts: u64) -> (t: UtcTime)
    ensures
        is_block_time(ts, t),
{
    if ts > i64::MAX as u64 {
        return UtcTime { secs: 0 };
    }
    let secs = ts as i64;
    match calendar_instant(secs) {
        Some(s) => UtcTime { secs: s },
        None => UtcTime { secs: 0 },
    }
}

} // verus!
