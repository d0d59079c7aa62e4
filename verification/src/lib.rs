//! Weekly work-goal reminders: the clock arithmetic, the schedule rules and the
//! decisions of the notification scheduler, with machine-checked contracts.

pub mod clock;
pub mod datatypes;
pub mod json;
pub mod notify;
pub mod query;
pub mod schedule;
pub mod scheduler;
pub mod store;
pub mod text;
pub mod time;
pub mod worktime;

