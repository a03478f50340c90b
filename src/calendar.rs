//! Day and week windows in UTC, over seconds since the Unix epoch.

use vstd::prelude::*;

verus! {

pub const SECONDS_PER_DAY: i64 = 86400;

/// The Unix epoch fell on a Thursday, three days after a Monday.
pub const EPOCH_DAYS_FROM_MONDAY: i64 = 3;

/// Midnight UTC of the day that holds `t` (seconds since the Unix epoch).
pub open spec fn day_start_at(t: int) -> int {
    t - t % 86400
}

/// How many days the day that holds `t` lies after a Monday, from 0 to 6.
pub open spec fn days_from_monday(t: int) -> int {
    (t / 86400 + 3) % 7
}

/// Midnight UTC of the Monday of the week that holds `t`.
pub open spec fn week_start_at(t: int) -> int {
    day_start_at(t) - 86400 * days_from_monday(t)
}

/// The earliest time that the windows below are computed for: a week after
/// the least `i64`, so that the start of its week is an `i64` too.
pub const EARLIEST_TIME: i64 = i64::MIN + 7 * SECONDS_PER_DAY;

/// Midnight UTC of the day that holds `now`.
pub fn day_start(now: i64) -> (r: i64)
    requires
        now >= EARLIEST_TIME,
    ensures
        r == day_start_at(now as int),
        r <= now < r + 86400,
{
    let within = now.checked_rem_euclid(SECONDS_PER_DAY).unwrap();
    now - within
}

/// Days since the Monday of the week that holds `now`, from 0 to 6.
pub fn weekday_from_monday(now: i64) -> (r: i64)
    ensures
        r == days_from_monday(now as int),
        0 <= r < 7,
{
    let days = now.checked_div_euclid(SECONDS_PER_DAY).unwrap();
    (days + EPOCH_DAYS_FROM_MONDAY).checked_rem_euclid(7).unwrap()
}

/// Midnight UTC of the Monday of the week that holds `now`.
pub fn week_start(now: i64) -> (r: i64)
    requires
        now >= EARLIEST_TIME,
    ensures
        r == week_start_at(now as int),
        r <= now < r + 7 * 86400,
{
    let day = day_start(now);
    let offset = weekday_from_monday(now);
    day - SECONDS_PER_DAY * offset
}

} // verus!
