//! Reading and writing RFC 3339 times, through chrono.

use vstd::prelude::*;

use crate::entry::TrackingEntry;
use crate::tracker::TrackerError;

verus! {

/// The instant that an RFC 3339 text gives, in whole seconds since the Unix
/// epoch, or none when the text is not RFC 3339.
pub uninterp spec fn rfc3339_seconds(text: Seq<char>) -> Option<i64>;

/// The RFC 3339 writing, with a `+00:00` offset, of an instant given in
/// seconds since the Unix epoch.
pub uninterp spec fn rfc3339_text(seconds: int) -> Seq<char>;

/// Relies on chrono's `DateTime::parse_from_rfc3339`, whose result depends on
/// the text alone, read back as whole seconds by `DateTime::timestamp`.
#[verifier::external_body]
fn parse_rfc3339(text: &str) -> (r: Option<i64>)
    ensures
        r == rfc3339_seconds(text@),
{
    match chrono::DateTime::parse_from_rfc3339(text) {
        Ok(t) => Some(t.timestamp()),
        Err(_) => None,
    }
}

/// The first second of the year 1, in seconds since the Unix epoch.
pub const FIRST_WRITABLE: i64 = -62_135_596_800;

/// The last second of the year 9999, in seconds since the Unix epoch.
pub const LAST_WRITABLE: i64 = 253_402_300_799;

/// Whether `seconds` lies in the years 1 to 9999, which chrono always
/// represents.
pub open spec fn writable(seconds: int) -> bool {
    FIRST_WRITABLE <= seconds <= LAST_WRITABLE
}

/// Relies on chrono's `DateTime::<Utc>::to_rfc3339` for the writing, after
/// `DateTime::from_timestamp`, which with no nanoseconds gives none only for
/// seconds outside the years that chrono represents, a range wider than the
/// years 1 to 9999.
#[verifier::external_body]
fn write_rfc3339(seconds: i64) -> (r: Option<String>)
    ensures
        writable(seconds as int) ==> r is Some,
        r matches Some(s) ==> s@ == rfc3339_text(seconds as int),
{
    match chrono::DateTime::from_timestamp(seconds, 0) {
        Some(t) => Some(t.to_rfc3339()),
        None => None,
    }
}

pub open spec fn entry_of(id: u32, workspace_id: u32, start: Option<i64>, duration: i64) -> Result<
    TrackingEntry,
    TrackerError,
> {
    match start {
        Some(s) => Ok(TrackingEntry { id, workspace_id, start: s, duration }),
        None => Err(TrackerError::InvalidStart),
    }
}

/// Builds an entry from its fields as the service sends them, with the start
/// already read as seconds since the Unix epoch: `InvalidStart` when it could
/// not be read.
pub fn entry_from_parts(id: u32, workspace_id: u32, start: Option<i64>, duration: i64) -> (r: Result<
    TrackingEntry,
    TrackerError,
>)
    ensures
        r == entry_of(id, workspace_id, start, duration),
{
    match start {
        Some(s) => Ok(TrackingEntry { id, workspace_id, start: s, duration }),
        None => Err(TrackerError::InvalidStart),
    }
}

/// Builds an entry from its fields as the service sends them, the start as
/// RFC 3339 text.
pub fn entry_from_payload(id: u32, workspace_id: u32, start: &str, duration: i64) -> (r: Result<
    TrackingEntry,
    TrackerError,
>)
    ensures
        r == entry_of(id, workspace_id, rfc3339_seconds(start@), duration),
{
    let seconds = parse_rfc3339(start);
    entry_from_parts(id, workspace_id, seconds, duration)
}

/// The RFC 3339 writing of `seconds` since the Unix epoch, UTC;
/// `TimeOutOfRange` where chrono cannot represent that instant, which is
/// never within the years 1 to 9999.
pub fn time_text(seconds: i64) -> (r: Result<String, TrackerError>)
    ensures
        writable(seconds as int) ==> r is Ok,
        r is Err ==> r == Err::<String, TrackerError>(TrackerError::TimeOutOfRange),
        r matches Ok(s) ==> s@ == rfc3339_text(seconds as int),
{
    match write_rfc3339(seconds) {
        Some(s) => Ok(s),
        None => Err(TrackerError::TimeOutOfRange),
    }
}

/// The query that selects the entries from `start` to `end`: the pairs
/// `start_date` and `end_date`, each an RFC 3339 time. It is written
/// whenever both ends lie within the years 1 to 9999.
pub fn entries_query(start: i64, end: i64) -> (r: Result<Vec<(String, String)>, TrackerError>)
    ensures
        writable(start as int) && writable(end as int) ==> r is Ok,
        r is Err ==> r == Err::<Vec<(String, String)>, TrackerError>(TrackerError::TimeOutOfRange),
        r matches Ok(q) ==> {
            &&& q@.len() == 2
            &&& q@[0].0@ == "start_date"@
            &&& q@[0].1@ == rfc3339_text(start as int)
            &&& q@[1].0@ == "end_date"@
            &&& q@[1].1@ == rfc3339_text(end as int)
        },
{
    let from = match time_text(start) {
        Ok(s) => s,
        Err(e) => {
            return Err(e);
        },
    };
    let to = match time_text(end) {
        Ok(s) => s,
        Err(e) => {
            return Err(e);
        },
    };
    let mut q: Vec<(String, String)> = Vec::new();
    q.push((String::from_str("start_date"), from));
    q.push((String::from_str("end_date"), to));
    Ok(q)
}

} // verus!
