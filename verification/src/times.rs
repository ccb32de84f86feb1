//! Instants and times of day, modelled as whole seconds.
//!
//! An instant is the number of seconds since the Unix epoch (UTC); a time of
//! day is the number of seconds since midnight. The calendar runs from the
//! epoch to the last second of year 9999, the range the clock source below
//! supports.
use vstd::prelude::*;

verus! {

pub const SECONDS_PER_DAY: i64 = 86_400;

pub const SECONDS_PER_HOUR: i64 = 3_600;

/// Half a day: the rollover boundary of next-occurrence computation.
pub const HALF_DAY: i64 = 43_200;

/// 9999-12-31T23:59:59Z, the last instant of the modelled calendar.
pub const TS_MAX: i64 = 253_402_300_799;

/// Latest instant from which a next occurrence can still be computed
/// without leaving the calendar.
pub const TS_SCHEDULE_MAX: i64 = TS_MAX - 2 * SECONDS_PER_DAY;

/// An instant the library accepts: within the modelled calendar.
pub open spec fn valid_ts(ts: i64) -> bool {
    0 <= ts <= TS_MAX
}

/// A valid time of day, in seconds since midnight.
pub open spec fn valid_time_of_day(sod: i64) -> bool {
    0 <= sod < SECONDS_PER_DAY
}

/// Seconds since midnight of the day `ts` falls in.
pub open spec fn spec_time_of_day(ts: i64) -> int
    recommends
        valid_ts(ts),
{
    (ts % SECONDS_PER_DAY) as int
}

/// Midnight of the day `ts` falls in.
pub open spec fn spec_day_start(ts: i64) -> int
    recommends
        valid_ts(ts),
{
    ts - ts % SECONDS_PER_DAY
}

/// `ts` with its time-of-day component replaced by `sod`.
pub open spec fn spec_replace_time(ts: i64, sod: i64) -> int
    recommends
        valid_ts(ts),
        valid_time_of_day(sod),
{
    spec_day_start(ts) + sod
}

pub fn time_of_day(ts: i64) -> (sod: i64)
    requires
        valid_ts(ts),
    ensures
        sod == spec_time_of_day(ts),
        valid_time_of_day(sod),
{
    ts % SECONDS_PER_DAY
}

pub fn replace_time(ts: i64, sod: i64) -> (r: i64)
    requires
        valid_ts(ts),
        valid_time_of_day(sod),
    ensures
        r == spec_replace_time(ts, sod),
        valid_ts(r),
{
    ts - ts % SECONDS_PER_DAY + sod
}

/// The instant the wall clock shows now, as whole seconds since the epoch.
///
/// Relies on time::OffsetDateTime::now_utc and its unix_timestamp accessor.
/// Nothing is assumed of the value: the clock is the environment's.
#[verifier::external_body]
fn now_unix_raw() -> i64 {
    time::OffsetDateTime::now_utc().unix_timestamp()
}

/// The current instant, clamped into the modelled calendar.
pub fn now_unix() -> (ts: i64)
    ensures
        valid_ts(ts),
{
    let now = now_unix_raw();
    if now < 0 {
        0
    } else if now > TS_MAX {
        TS_MAX
    } else {
        now
    }
}

} // verus!
