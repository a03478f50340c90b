//! The lines of a status report.

use vstd::prelude::*;

use crate::duration::{format_duration_human, format_duration_spec};
use crate::entry::{entries_duration, fits_i64, total_elapsed, TrackingEntry};
use crate::tracker::TrackerError;

verus! {

/// The three lines of a status report.
#[derive(Clone, Debug, PartialEq, Eq)]
pub struct StatusReport {
    pub current: String,
    pub today: String,
    pub week: String,
}

/// The `current:` line: how long the running entry has run at `now`, or
/// `stopped`.
pub open spec fn current_line(now: int, current: Option<TrackingEntry>) -> Seq<char> {
    "current: "@ + match current {
        Some(e) => format_duration_spec(now - e.start),
        None => "stopped"@,
    }
}

/// Whether every duration of the report fits a signed 64-bit count of
/// seconds.
pub open spec fn report_fits(
    now: int,
    current: Option<TrackingEntry>,
    today: Seq<TrackingEntry>,
    week: Seq<TrackingEntry>,
) -> bool {
    &&& current matches Some(e) ==> fits_i64(now - e.start)
    &&& fits_i64(total_elapsed(today, now))
    &&& fits_i64(total_elapsed(week, now))
}

fn labelled(label: &str, text: String) -> (r: String)
    ensures
        r@ == label@ + text@,
{
    let mut r = String::from_str(label);
    r.append(text.as_str());
    r
}

/// Writes the status report at `now`: how long `current` has run, and what
/// the entries of `today` and of `week` count for together, each running
/// entry up to `now`.
pub fn status_report(
    now: i64,
    current: &Option<TrackingEntry>,
    today: &Vec<TrackingEntry>,
    week: &Vec<TrackingEntry>,
) -> (r: Result<StatusReport, TrackerError>)
    ensures
        r is Err <==> !report_fits(now as int, *current, today@, week@),
        r is Err ==> r == Err::<StatusReport, TrackerError>(TrackerError::DurationOverflow),
        r matches Ok(report) ==> {
            &&& report.current@ == current_line(now as int, *current)
            &&& report.today@ == "today: "@ + format_duration_spec(total_elapsed(today@, now as int))
            &&& report.week@ == "week: "@ + format_duration_spec(total_elapsed(week@, now as int))
        },
{
    let current_text = match current {
        Some(e) => {
            let running = now as i128 - e.start as i128;
            if running < i64::MIN as i128 || running > i64::MAX as i128 {
                return Err(TrackerError::DurationOverflow);
            }
            format_duration_human(running as i64)
        },
        None => String::from_str("stopped"),
    };
    let today_total = match entries_duration(today, now) {
        Some(t) => t,
        None => {
            return Err(TrackerError::DurationOverflow);
        },
    };
    let week_total = match entries_duration(week, now) {
        Some(t) => t,
        None => {
            return Err(TrackerError::DurationOverflow);
        },
    };
    Ok(
        StatusReport {
            current: labelled("current: ", current_text),
            today: labelled("today: ", format_duration_human(today_total)),
            week: labelled("week: ", format_duration_human(week_total)),
        },
    )
}

/// No entries count for no time, which is written `"none"`.
pub proof fn lemma_no_entries_total_none(now: int)
    ensures
        total_elapsed(Seq::<TrackingEntry>::empty(), now) == 0,
        format_duration_spec(total_elapsed(Seq::<TrackingEntry>::empty(), now)) == "none"@,
{
    assert(crate::duration::duration_parts(0).len() == 0);
}

} // verus!
