//! Decision and arithmetic core of a command-line client for a time-tracking
//! service: which request a command leads to, how the time of a set of
//! entries is summed, and how a duration is written for people.

mod text;

pub mod calendar;
pub mod duration;
pub mod entry;
pub mod report;
pub mod timestamp;
pub mod tracker;

pub use duration::format_duration_human;
