//! The records that travel between the store, the scheduler and the pages.

use vstd::prelude::*;

verus! {

/// A day of the week; the week starts on Monday.
#[derive(Clone, Copy, Debug, PartialEq, Eq, Structural)]
pub enum Weekday {
    Monday,
    Tuesday,
    Wednesday,
    Thursday,
    Friday,
    Saturday,
    Sunday,
}

/// A user's weekly schedule: for each day a pair of the trigger, a week-minute
/// in UTC at which the day's check fires, and the day's goal in hours.
#[derive(Clone, Copy, Debug, PartialEq, Eq)]
pub struct Settings {
    pub monday: (i64, i32),
    pub tuesday: (i64, i32),
    pub wednesday: (i64, i32),
    pub thursday: (i64, i32),
    pub friday: (i64, i32),
    pub saturday: (i64, i32),
    pub sunday: (i64, i32),
}

/// A project as the project picker shows it: its name and the time
/// spent on it, already written out for display.
#[derive(Clone, Debug, PartialEq, Eq)]
pub struct Project {
    pub name: String,
    pub time: String,
}

/// What the settings page loads for one user.
#[derive(Clone, Debug, PartialEq, Eq)]
pub struct Data {
    pub username: String,
    pub projects: Vec<Project>,
    pub primary: String,
    pub settings: Settings,
}

/// The mathematical content of a [`Project`].
pub struct ProjectView {
    pub name: Seq<char>,
    pub time: Seq<char>,
}

impl View for Project {
    type V = ProjectView;

    open spec fn view(&self) -> ProjectView {
        ProjectView { name: self.name@, time: self.time@ }
    }
}

/// The contents of a list of projects, in order.
pub open spec fn project_views(projects: Seq<Project>) -> Seq<ProjectView> {
    Seq::new(projects.len(), |i: int| projects[i]@)
}

/// The mathematical content of a [`Data`].
pub struct DataView {
    pub username: Seq<char>,
    pub projects: Seq<ProjectView>,
    pub primary: Seq<char>,
    pub settings: Settings,
}

impl View for Data {
    type V = DataView;

    open spec fn view(&self) -> DataView {
        DataView {
            username: self.username@,
            projects: project_views(self.projects@),
            primary: self.primary@,
            settings: self.settings,
        }
    }
}

impl Weekday {
    /// The day's place in the week, Monday being 0 and Sunday 6.
    pub open spec fn index_of(self) -> int {
        match self {
            Weekday::Monday => 0,
            Weekday::Tuesday => 1,
            Weekday::Wednesday => 2,
            Weekday::Thursday => 3,
            Weekday::Friday => 4,
            Weekday::Saturday => 5,
            Weekday::Sunday => 6,
        }
    }

    /// The day before this one, Sunday coming before Monday.
    pub open spec fn day_before(self) -> Weekday {
        match self {
            Weekday::Monday => Weekday::Sunday,
            Weekday::Tuesday => Weekday::Monday,
            Weekday::Wednesday => Weekday::Tuesday,
            Weekday::Thursday => Weekday::Wednesday,
            Weekday::Friday => Weekday::Thursday,
            Weekday::Saturday => Weekday::Friday,
            Weekday::Sunday => Weekday::Saturday,
        }
    }

    /// The day's place in the week, Monday being 0 and Sunday 6.
    pub fn index(self) -> (i: u8)
        ensures
            i == self.index_of(),
    {
        match self {
            Weekday::Monday => 0,
            Weekday::Tuesday => 1,
            Weekday::Wednesday => 2,
            Weekday::Thursday => 3,
            Weekday::Friday => 4,
            Weekday::Saturday => 5,
            Weekday::Sunday => 6,
        }
    }

    /// The day before this one, Sunday coming before Monday.
    pub fn previous(self) -> (day: Weekday)
        ensures
            day == self.day_before(),
    {
        match self {
            Weekday::Monday => Weekday::Sunday,
            Weekday::Tuesday => Weekday::Monday,
            Weekday::Wednesday => Weekday::Tuesday,
            Weekday::Thursday => Weekday::Wednesday,
            Weekday::Friday => Weekday::Thursday,
            Weekday::Saturday => Weekday::Friday,
            Weekday::Sunday => Weekday::Saturday,
        }
    }
}

impl Settings {
    /// The pair stored for `day`.
    pub open spec fn entry_of(self, day: Weekday) -> (i64, i32) {
        match day {
            Weekday::Monday => self.monday,
            Weekday::Tuesday => self.tuesday,
            Weekday::Wednesday => self.wednesday,
            Weekday::Thursday => self.thursday,
            Weekday::Friday => self.friday,
            Weekday::Saturday => self.saturday,
            Weekday::Sunday => self.sunday,
        }
    }

    /// The week-minute at which the check of `day` fires.
    pub open spec fn trigger_of(self, day: Weekday) -> int {
        self.entry_of(day).0 as int
    }

    /// The goal stored for `day`, in hours.
    pub open spec fn goal_of(self, day: Weekday) -> int {
        self.entry_of(day).1 as int
    }

    /// The weekly total: the sum of the seven stored goals, in hours.
    pub open spec fn weekly_goal_of(self) -> int {
        self.monday.1 + self.tuesday.1 + self.wednesday.1 + self.thursday.1 + self.friday.1
            + self.saturday.1 + self.sunday.1
    }

    /// These settings with the pair of `day` replaced by `entry`.
    pub open spec fn with_entry_of(self, day: Weekday, entry: (i64, i32)) -> Settings {
        match day {
            Weekday::Monday => Settings { monday: entry, ..self },
            Weekday::Tuesday => Settings { tuesday: entry, ..self },
            Weekday::Wednesday => Settings { wednesday: entry, ..self },
            Weekday::Thursday => Settings { thursday: entry, ..self },
            Weekday::Friday => Settings { friday: entry, ..self },
            Weekday::Saturday => Settings { saturday: entry, ..self },
            Weekday::Sunday => Settings { sunday: entry, ..self },
        }
    }

    /// The schedule of a user who has not saved one: every check at
    /// week-minute 0, one hour a day from Monday to Friday and three hours on
    /// Saturday and on Sunday.
    pub open spec fn initial() -> Settings {
        Settings {
            monday: (0, 1),
            tuesday: (0, 1),
            wednesday: (0, 1),
            thursday: (0, 1),
            friday: (0, 1),
            saturday: (0, 3),
            sunday: (0, 3),
        }
    }

    /// The pair stored for `day`.
    pub fn entry(&self, day: Weekday) -> (e: (i64, i32))
        ensures
            e == self.entry_of(day),
    {
        match day {
            Weekday::Monday => self.monday,
            Weekday::Tuesday => self.tuesday,
            Weekday::Wednesday => self.wednesday,
            Weekday::Thursday => self.thursday,
            Weekday::Friday => self.friday,
            Weekday::Saturday => self.saturday,
            Weekday::Sunday => self.sunday,
        }
    }

    /// The week-minute at which the check of `day` fires.
    pub fn trigger(&self, day: Weekday) -> (minute: i64)
        ensures
            minute == self.trigger_of(day),
    {
        self.entry(day).0
    }

    /// The goal stored for `day`, in hours.
    pub fn goal(&self, day: Weekday) -> (hours: i32)
        ensures
            hours == self.goal_of(day),
    {
        self.entry(day).1
    }

    /// The weekly total: the sum of the seven stored goals, in hours.
    pub fn weekly_goal(&self) -> (hours: i64)
        ensures
            hours == self.weekly_goal_of(),
    {
        self.monday.1 as i64 + self.tuesday.1 as i64 + self.wednesday.1 as i64
            + self.thursday.1 as i64 + self.friday.1 as i64 + self.saturday.1 as i64
            + self.sunday.1 as i64
    }

    /// These settings with the pair of `day` replaced by `entry`.
    pub fn with_entry(self, day: Weekday, entry: (i64, i32)) -> (s: Settings)
        ensures
            s == self.with_entry_of(day, entry),
            s.entry_of(day) == entry,
            forall|other: Weekday| other != day ==> s.entry_of(other) == self.entry_of(other),
    {
        let mut s = self;
        match day {
            Weekday::Monday => { s.monday = entry; },
            Weekday::Tuesday => { s.tuesday = entry; },
            Weekday::Wednesday => { s.wednesday = entry; },
            Weekday::Thursday => { s.thursday = entry; },
            Weekday::Friday => { s.friday = entry; },
            Weekday::Saturday => { s.saturday = entry; },
            Weekday::Sunday => { s.sunday = entry; },
        }
        s
    }

    /// These settings with the goal of `day` replaced by `hours`.
    pub fn with_goal(self, day: Weekday, hours: i32) -> (s: Settings)
        ensures
            s == self.with_entry_of(day, (self.entry_of(day).0, hours)),
            s.weekly_goal_of() == self.weekly_goal_of() + (hours - self.goal_of(day)),
    {
        let kept: i64 = self.trigger(day);
        self.with_entry(day, (kept, hours))
    }
}

impl Default for Settings {
    fn default() -> (s: Settings)
        ensures
            s == Settings::initial(),
    {
        Settings {
            monday: (0, 1),
            tuesday: (0, 1),
            wednesday: (0, 1),
            thursday: (0, 1),
            friday: (0, 1),
            saturday: (0, 3),
            sunday: (0, 3),
        }
    }
}

} // verus!
