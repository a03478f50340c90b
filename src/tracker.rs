//! What each command does, and the requests that carry it out.

use vstd::prelude::*;

use crate::entry::{TrackingEntry, Workspace, OPEN_DURATION};
use crate::text::{decimal, push_decimal};

verus! {

/// What the user asked for; `Toggle` when no subcommand was given.
#[derive(Clone, Copy, Debug, PartialEq, Eq, Structural)]
pub enum Command {
    Status,
    Stop,
    Start,
    Toggle,
}

/// What to do next, given the command and the running entry, if any.
#[derive(Clone, Copy, Debug, PartialEq, Eq, Structural)]
pub enum Action {
    /// Report the running entry and today's and this week's totals.
    ShowStatus,
    /// Open a new entry in the default workspace.
    StartEntry,
    /// Close this running entry.
    StopEntry(TrackingEntry),
    /// Nothing to start: an entry runs already.
    AlreadyRunning,
    /// Nothing to stop: no entry runs.
    AlreadyStopped,
}

/// Why an operation could not go on.
#[derive(Clone, Copy, Debug, PartialEq, Eq, Structural)]
pub enum TrackerError {
    /// The account has no workspace to open an entry in.
    NoWorkspace,
    /// A duration does not fit a signed 64-bit count of seconds.
    DurationOverflow,
    /// An entry's start is not an RFC 3339 time.
    InvalidStart,
    /// A time lies outside the years that can be written.
    TimeOutOfRange,
}

pub open spec fn action_for(command: Command, current: Option<TrackingEntry>) -> Action {
    match command {
        Command::Status => Action::ShowStatus,
        Command::Stop => match current {
            Some(e) => Action::StopEntry(e),
            None => Action::AlreadyStopped,
        },
        Command::Start => match current {
            Some(_) => Action::AlreadyRunning,
            None => Action::StartEntry,
        },
        Command::Toggle => match current {
            Some(e) => Action::StopEntry(e),
            None => Action::StartEntry,
        },
    }
}

/// Whether an entry runs once `action` is carried out, where `running` says
/// whether one ran before.
pub open spec fn running_after(running: bool, action: Action) -> bool {
    match action {
        Action::StartEntry => true,
        Action::StopEntry(_) => false,
        _ => running,
    }
}

/// Decides what `command` does when `current` is the running entry: stop
/// closes it, start opens one only when none runs, and toggle does whichever
/// of the two applies.
pub fn next_action(command: Command, current: &Option<TrackingEntry>) -> (r: Action)
    ensures
        r == action_for(command, *current),
{
    match command {
        Command::Status => Action::ShowStatus,
        Command::Stop => match current {
            Some(e) => Action::StopEntry(*e),
            None => Action::AlreadyStopped,
        },
        Command::Start => match current {
            Some(_) => Action::AlreadyRunning,
            None => Action::StartEntry,
        },
        Command::Toggle => match current {
            Some(e) => Action::StopEntry(*e),
            None => Action::StartEntry,
        },
    }
}

pub open spec fn message_for(action: Action) -> Option<Seq<char>> {
    match action {
        Action::ShowStatus => None,
        Action::StartEntry => Some("started"@),
        Action::StopEntry(_) => Some("stopped"@),
        Action::AlreadyRunning => Some("already running"@),
        Action::AlreadyStopped => Some("already stopped"@),
    }
}

/// The line reported once `action` is carried out; none for a status report,
/// which writes lines of its own.
pub fn outcome_message(action: &Action) -> (r: Option<String>)
    ensures
        r matches Some(m) <==> message_for(*action) is Some,
        r matches Some(m) ==> m@ == message_for(*action)->Some_0,
{
    match action {
        Action::ShowStatus => None,
        Action::StartEntry => Some(String::from_str("started")),
        Action::StopEntry(_) => Some(String::from_str("stopped")),
        Action::AlreadyRunning => Some(String::from_str("already running")),
        Action::AlreadyStopped => Some(String::from_str("already stopped")),
    }
}

/// Toggling twice from a stopped state first opens an entry, then closes that
/// entry: the state runs, then is stopped again.
pub proof fn lemma_toggle_twice_from_stopped(started: TrackingEntry)
    requires
        started.is_open(),
    ensures
        action_for(Command::Toggle, None) == Action::StartEntry,
        running_after(false, action_for(Command::Toggle, None)),
        action_for(Command::Toggle, Some(started)) == Action::StopEntry(started),
        !running_after(
            running_after(false, action_for(Command::Toggle, None)),
            action_for(Command::Toggle, Some(started)),
        ),
{
}

/// No command opens a second entry while one runs.
pub proof fn lemma_never_starts_while_running(command: Command, current: TrackingEntry)
    ensures
        action_for(command, Some(current)) != Action::StartEntry,
{
}

/// The entry to open: in the first workspace that the service lists, started
/// at `start`, and running.
#[derive(Clone, Copy, Debug, PartialEq, Eq, Structural)]
pub struct NewEntry {
    pub workspace_id: u32,
    pub start: i64,
    pub duration: i64,
}

/// The default workspace: the first that the service lists.
pub fn default_workspace(workspaces: &Vec<Workspace>) -> (r: Result<u32, TrackerError>)
    ensures
        workspaces@.len() == 0 <==> r == Err::<u32, TrackerError>(TrackerError::NoWorkspace),
        workspaces@.len() > 0 ==> r == Ok::<u32, TrackerError>(workspaces@[0].id),
{
    if workspaces.len() == 0 {
        Err(TrackerError::NoWorkspace)
    } else {
        Ok(workspaces[0].id)
    }
}

/// The running entry to open at `now` in the default workspace.
pub fn new_entry(workspaces: &Vec<Workspace>, now: i64) -> (r: Result<NewEntry, TrackerError>)
    ensures
        workspaces@.len() == 0 <==> r == Err::<NewEntry, TrackerError>(TrackerError::NoWorkspace),
        workspaces@.len() > 0 ==> r == Ok::<NewEntry, TrackerError>(
            NewEntry { workspace_id: workspaces@[0].id, start: now, duration: OPEN_DURATION },
        ),
{
    match default_workspace(workspaces) {
        Err(e) => Err(e),
        Ok(id) => Ok(NewEntry { workspace_id: id, start: now, duration: OPEN_DURATION }),
    }
}

/// The service's address, to which each request path is added.
pub const API_BASE: &'static str = "https://api.track.toggl.com/api/v9";

/// The workspaces of the account.
pub const WORKSPACES_URL: &'static str = "https://api.track.toggl.com/api/v9/workspaces";

/// The running entry, or JSON `null` when none runs.
pub const CURRENT_ENTRY_URL: &'static str = "https://api.track.toggl.com/api/v9/me/time_entries/current";

/// The entries of a date range, given as `start_date` and `end_date`.
pub const ENTRIES_URL: &'static str = "https://api.track.toggl.com/api/v9/me/time_entries";

pub open spec fn workspace_entries_path(workspace_id: u32) -> Seq<char> {
    API_BASE@ + "/workspaces/"@ + decimal(workspace_id as nat) + "/time_entries"@
}

/// Where an entry is opened in the workspace `workspace_id`.
pub fn workspace_entries_url(workspace_id: u32) -> (r: String)
    ensures
        r@ == workspace_entries_path(workspace_id),
{
    let mut r = String::from_str(API_BASE);
    r.append("/workspaces/");
    push_decimal(&mut r, workspace_id as u64);
    r.append("/time_entries");
    r
}

/// Where `entry` is closed: the entry's own address in its workspace,
/// followed by `/stop`.
pub fn stop_entry_url(entry: &TrackingEntry) -> (r: String)
    ensures
        r@ == workspace_entries_path(entry.workspace_id) + "/"@ + decimal(entry.id as nat)
            + "/stop"@,
{
    let mut r = workspace_entries_url(entry.workspace_id);
    r.append("/");
    push_decimal(&mut r, entry.id as u64);
    r.append("/stop");
    r
}

} // verus!
