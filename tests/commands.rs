use toggl_toggle::calendar::{day_start, week_start, weekday_from_monday};
use toggl_toggle::entry::{TrackingEntry, Workspace, OPEN_DURATION};
use toggl_toggle::timestamp::{
    entries_query, entry_from_parts, entry_from_payload, time_text, FIRST_WRITABLE, LAST_WRITABLE,
};
use toggl_toggle::tracker::{
    default_workspace, new_entry, next_action, outcome_message, stop_entry_url,
    workspace_entries_url, Action, Command, NewEntry, TrackerError,
};

fn running(id: u32) -> TrackingEntry {
    TrackingEntry { id, workspace_id: 42, start: 1_000, duration: OPEN_DURATION }
}

#[test]
fn toggle_twice_from_stopped() {
    let mut current: Option<TrackingEntry> = None;
    let first = next_action(Command::Toggle, &current);
    assert_eq!(first, Action::StartEntry);
    current = Some(running(9));
    let second = next_action(Command::Toggle, &current);
    assert_eq!(second, Action::StopEntry(running(9)));
    current = None;
    assert_eq!(next_action(Command::Toggle, &current), Action::StartEntry);
}

#[test]
fn start_and_stop_guards() {
    assert_eq!(next_action(Command::Start, &Some(running(1))), Action::AlreadyRunning);
    assert_eq!(next_action(Command::Start, &None), Action::StartEntry);
    assert_eq!(next_action(Command::Stop, &None), Action::AlreadyStopped);
    assert_eq!(next_action(Command::Stop, &Some(running(1))), Action::StopEntry(running(1)));
    assert_eq!(next_action(Command::Status, &None), Action::ShowStatus);
}

#[test]
fn messages() {
    assert_eq!(outcome_message(&Action::StartEntry), Some("started".to_string()));
    assert_eq!(outcome_message(&Action::StopEntry(running(1))), Some("stopped".to_string()));
    assert_eq!(outcome_message(&Action::AlreadyRunning), Some("already running".to_string()));
    assert_eq!(outcome_message(&Action::AlreadyStopped), Some("already stopped".to_string()));
    assert_eq!(outcome_message(&Action::ShowStatus), None);
}

#[test]
fn first_workspace_wins() {
    let ws = vec![Workspace { id: 31 }, Workspace { id: 7 }];
    assert_eq!(default_workspace(&ws), Ok(31));
    assert_eq!(
        new_entry(&ws, 1_234),
        Ok(NewEntry { workspace_id: 31, start: 1_234, duration: -1 })
    );
}

#[test]
fn no_workspace_is_an_error() {
    assert_eq!(default_workspace(&Vec::new()), Err(TrackerError::NoWorkspace));
    assert_eq!(new_entry(&Vec::new(), 0), Err(TrackerError::NoWorkspace));
}

#[test]
fn request_urls() {
    assert_eq!(
        workspace_entries_url(1234567),
        "https://api.track.toggl.com/api/v9/workspaces/1234567/time_entries"
    );
    assert_eq!(
        workspace_entries_url(0),
        "https://api.track.toggl.com/api/v9/workspaces/0/time_entries"
    );
    let e = TrackingEntry { id: 4294967295, workspace_id: 42, start: 0, duration: -1 };
    assert_eq!(
        stop_entry_url(&e),
        "https://api.track.toggl.com/api/v9/workspaces/42/time_entries/4294967295/stop"
    );
}

#[test]
fn day_and_week_windows() {
    // 2023-11-14T22:13:20Z, a Tuesday.
    let now = 1_700_000_000;
    assert_eq!(day_start(now), 1_699_920_000);
    assert_eq!(weekday_from_monday(now), 1);
    assert_eq!(week_start(now), 1_699_833_600);
    // 1970-01-01 was a Thursday; the day before, a Wednesday.
    assert_eq!(weekday_from_monday(0), 3);
    assert_eq!(day_start(-1), -86_400);
    assert_eq!(weekday_from_monday(-1), 2);
    assert_eq!(week_start(-1), -86_400 * 3);
    assert_eq!(day_start(86_400), 86_400);
}

#[test]
fn entry_payload_start_is_read() {
    assert_eq!(
        entry_from_payload(5, 6, "2024-01-01T00:00:00+00:00", -1),
        Ok(TrackingEntry { id: 5, workspace_id: 6, start: 1_704_067_200, duration: -1 })
    );
    assert_eq!(
        entry_from_payload(5, 6, "2024-01-01T02:00:00+02:00", 300),
        Ok(TrackingEntry { id: 5, workspace_id: 6, start: 1_704_067_200, duration: 300 })
    );
    assert_eq!(entry_from_payload(5, 6, "yesterday", 300), Err(TrackerError::InvalidStart));
    assert_eq!(entry_from_parts(5, 6, None, 300), Err(TrackerError::InvalidStart));
    assert_eq!(
        entry_from_parts(5, 6, Some(12), 300),
        Ok(TrackingEntry { id: 5, workspace_id: 6, start: 12, duration: 300 })
    );
}

#[test]
fn times_are_written_rfc3339() {
    assert_eq!(time_text(0), Ok("1970-01-01T00:00:00+00:00".to_string()));
    assert_eq!(time_text(1_704_067_200), Ok("2024-01-01T00:00:00+00:00".to_string()));
    assert_eq!(time_text(i64::MAX), Err(TrackerError::TimeOutOfRange));
    assert_eq!(
        entries_query(1_699_920_000, 1_700_000_000),
        Ok(vec![
            ("start_date".to_string(), "2023-11-14T00:00:00+00:00".to_string()),
            ("end_date".to_string(), "2023-11-14T22:13:20+00:00".to_string()),
        ])
    );
}

fn resolve(body: &str) -> Option<TrackingEntry> {
    let value: Option<serde_json::Value> = serde_json::from_str(body).unwrap();
    value.map(|v| {
        entry_from_payload(
            v["id"].as_u64().unwrap() as u32,
            v["workspace_id"].as_u64().unwrap() as u32,
            v["start"].as_str().unwrap(),
            v["duration"].as_i64().unwrap(),
        )
        .unwrap()
    })
}

#[test]
fn status_body_null_or_entry() {
    assert_eq!(resolve("null"), None);
    assert_eq!(
        resolve(r#"{"id": 3001, "workspace_id": 77, "start": "2024-03-05T08:30:00Z", "duration": -1}"#),
        Some(TrackingEntry { id: 3001, workspace_id: 77, start: 1_709_627_400, duration: -1 })
    );
}

#[test]
fn writable_range_ends() {
    assert_eq!(time_text(FIRST_WRITABLE), Ok("0001-01-01T00:00:00+00:00".to_string()));
    assert_eq!(time_text(LAST_WRITABLE), Ok("9999-12-31T23:59:59+00:00".to_string()));
    assert_eq!(
        entries_query(FIRST_WRITABLE, LAST_WRITABLE),
        Ok(vec![
            ("start_date".to_string(), "0001-01-01T00:00:00+00:00".to_string()),
            ("end_date".to_string(), "9999-12-31T23:59:59+00:00".to_string()),
        ])
    );
    assert_eq!(entries_query(0, i64::MAX), Err(TrackerError::TimeOutOfRange));
}
