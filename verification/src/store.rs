//! The schedule store: one record per user, found by username, with the
//! operations that the scheduler and the settings page need of it.

use vstd::prelude::*;
use crate::datatypes::{Settings, Weekday};
use crate::schedule::{
    goal_seconds, goal_seconds_of, matched_slot, matched_slot_of, window_minute, window_minute_of,
};

verus! {

/// What the store keeps for one user.
#[derive(Clone, Debug, PartialEq, Eq)]
pub struct UserRecord {
    /// The user's name, by which the record is found and which never changes.
    pub username: String,
    /// The project chosen for this week; empty where none is chosen.
    pub project: String,
    /// The weekly schedule.
    pub settings: Settings,
}

/// The mathematical content of a [`UserRecord`].
pub struct UserRecordView {
    pub username: Seq<char>,
    pub project: Seq<char>,
    pub settings: Settings,
}

impl View for UserRecord {
    type V = UserRecordView;

    open spec fn view(&self) -> UserRecordView {
        UserRecordView { username: self.username@, project: self.project@, settings: self.settings }
    }
}

/// A user whose check fires at the week-minute asked for.
#[derive(Clone, Debug, PartialEq, Eq)]
pub struct DueUser {
    pub username: String,
    /// The project chosen for this week; empty where none is chosen.
    pub project: String,
    /// The day whose check fires.
    pub slot: Weekday,
    /// The goal against which the check measures, in seconds.
    pub goal_seconds: i64,
    /// The week-minute from which the check counts the work.
    pub window_minute: i64,
}

/// The mathematical content of a [`DueUser`].
pub struct DueUserView {
    pub username: Seq<char>,
    pub project: Seq<char>,
    pub slot: Weekday,
    pub goal_seconds: int,
    pub window_minute: int,
}

impl View for DueUser {
    type V = DueUserView;

    open spec fn view(&self) -> DueUserView {
        DueUserView {
            username: self.username@,
            project: self.project@,
            slot: self.slot,
            goal_seconds: self.goal_seconds as int,
            window_minute: self.window_minute as int,
        }
    }
}

/// The contents of a list of records, in order.
pub open spec fn record_views(records: Seq<UserRecord>) -> Seq<UserRecordView> {
    Seq::new(records.len(), |i: int| records[i]@)
}

/// The contents of a list of due users, in order.
pub open spec fn due_views(due: Seq<DueUser>) -> Seq<DueUserView> {
    Seq::new(due.len(), |i: int| due[i]@)
}

/// The record of a user who is seen for the first time: no project, and the
/// schedule of [`Settings::initial`].
pub open spec fn first_record_of(username: Seq<char>) -> UserRecordView {
    UserRecordView { username, project: Seq::<char>::empty(), settings: Settings::initial() }
}

/// What the check that fires for `record` at week-minute `tick` is, if one
/// fires.
pub open spec fn due_of(record: UserRecordView, tick: int) -> Option<DueUserView> {
    match matched_slot_of(record.settings, tick) {
        Some(slot) => Some(
            DueUserView {
                username: record.username,
                project: record.project,
                slot,
                goal_seconds: goal_seconds_of(record.settings, slot),
                window_minute: window_minute_of(record.settings, slot),
            },
        ),
        None => None,
    }
}

/// The checks that fire at week-minute `tick`, one for each record that has
/// one, in the order of the records.
pub open spec fn due_list_of(records: Seq<UserRecordView>, tick: int) -> Seq<DueUserView>
    decreases records.len(),
{
    if records.len() == 0 {
        Seq::<DueUserView>::empty()
    } else {
        let earlier = due_list_of(records.drop_last(), tick);
        match due_of(records.last(), tick) {
            Some(due) => earlier.push(due),
            None => earlier,
        }
    }
}

/// The place of the record of `username`, if there is one.
pub open spec fn place_of(records: Seq<UserRecordView>, username: Seq<char>) -> Option<int> {
    if exists|i: int| 0 <= i < records.len() && (#[trigger] records[i]).username == username {
        Some(choose|i: int| 0 <= i < records.len() && (#[trigger] records[i]).username == username)
    } else {
        None
    }
}

/// Whether no two records have the same username.
pub open spec fn distinct_users(records: Seq<UserRecordView>) -> bool {
    forall|i: int, j: int|
        0 <= i < j < records.len() ==> (#[trigger] records[i]).username != (
        #[trigger] records[j]).username
}

/// The records with the project of `username` replaced by `project`; every
/// other record, and every other field, as it was.
pub open spec fn with_project_of(
    records: Seq<UserRecordView>,
    username: Seq<char>,
    project: Seq<char>,
) -> Seq<UserRecordView> {
    Seq::new(
        records.len(),
        |i: int|
            if records[i].username == username {
                UserRecordView { project, ..records[i] }
            } else {
                records[i]
            },
    )
}

/// The records with the schedule of `username` replaced by `schedule`; every
/// other record, and every other field, as it was.
pub open spec fn with_schedule_of(
    records: Seq<UserRecordView>,
    username: Seq<char>,
    schedule: Settings,
) -> Seq<UserRecordView> {
    Seq::new(
        records.len(),
        |i: int|
            if records[i].username == username {
                UserRecordView { settings: schedule, ..records[i] }
            } else {
                records[i]
            },
    )
}

/// The records with every chosen project cleared, and nothing else changed.
pub open spec fn cleared_of(records: Seq<UserRecordView>) -> Seq<UserRecordView> {
    Seq::new(records.len(), |i: int| UserRecordView { project: Seq::<char>::empty(), ..records[i] })
}

/// Whether no record has a project chosen.
pub open spec fn none_selected(records: Seq<UserRecordView>) -> bool {
    forall|i: int| 0 <= i < records.len() ==> (#[trigger] records[i]).project.len() == 0
}

impl UserRecord {
    /// The record of a user who is seen for the first time.
    pub fn first(username: &str) -> (record: UserRecord)
        ensures
            record@ == first_record_of(username@),
    {
        UserRecord {
            username: username.to_owned(),
            project: String::new(),
            settings: Settings::default(),
        }
    }

    /// A copy of the record.
    pub fn copy(&self) -> (record: UserRecord)
        ensures
            record@ == self@,
    {
        UserRecord {
            username: self.username.clone(),
            project: self.project.clone(),
            settings: self.settings,
        }
    }

    /// The check that fires for this user at week-minute `tick`, if one does.
    pub fn due_at(&self, tick: i64) -> (due: Option<DueUser>)
        ensures
            match due {
                Some(found) => due_of(self@, tick as int) == Some(found@),
                None => due_of(self@, tick as int) is None,
            },
    {
        match matched_slot(&self.settings, tick) {
            Some(slot) => Some(
                DueUser {
                    username: self.username.clone(),
                    project: self.project.clone(),
                    slot,
                    goal_seconds: goal_seconds(&self.settings, slot),
                    window_minute: window_minute(&self.settings, slot),
                },
            ),
            None => None,
        }
    }
}

impl DueUser {
    /// How many seconds before week-minute `tick` the check begins to count
    /// the work.
    pub open spec fn lookback_of(self, tick: int) -> int {
        (tick - self.window_minute) * 60
    }

    /// How many seconds before week-minute `tick` the check begins to count
    /// the work.
    pub fn lookback_seconds_ago(&self, tick: i64) -> (seconds: i128)
        ensures
            seconds == self.lookback_of(tick as int),
    {
        (tick as i128 - self.window_minute as i128) * 60
    }

    /// A copy of the entry.
    pub fn copy(&self) -> (due: DueUser)
        ensures
            due@ == self@,
    {
        DueUser {
            username: self.username.clone(),
            project: self.project.clone(),
            slot: self.slot,
            goal_seconds: self.goal_seconds,
            window_minute: self.window_minute,
        }
    }
}

/// Finds the users whose check fires at week-minute `tick`: one entry for
/// each record with a day whose trigger equals the tick, in the order of the
/// records.
pub fn find_due(records: &Vec<UserRecord>, tick: i64) -> (due: Vec<DueUser>)
    ensures
        due_views(due@) == due_list_of(record_views(records@), tick as int),
{
    let ghost views = record_views(records@);
    let mut due: Vec<DueUser> = Vec::new();
    let mut i: usize = 0;
    assert(due_views(due@) =~= due_list_of(views.take(0), tick as int));
    while i < records.len()
        invariant
            i <= records.len(),
            views == record_views(records@),
            due_views(due@) == due_list_of(views.take(i as int), tick as int),
        decreases records.len() - i,
    {
        let ghost before = due_views(due@);
        let found = records[i].due_at(tick);
        proof {
            let upto = views.take(i + 1);
            assert(upto.drop_last() =~= views.take(i as int));
            assert(upto.last() == records@[i as int]@);
        }
        match found {
            Some(entry) => {
                due.push(entry);
                assert(due_views(due@) =~= before.push(entry@));
            },
            None => {},
        }
        i += 1;
    }
    assert(views.take(i as int) =~= views);
    due
}

/// Whether `entry` is the check that fires for one of the records.
pub open spec fn fires_for_some(records: Seq<UserRecordView>, tick: int, entry: DueUserView) -> bool {
    exists|i: int| 0 <= i < records.len() && due_of(#[trigger] records[i], tick) == Some(entry)
}

/// Every entry of [`due_list_of`] is the check that fires for one of the
/// records, and there are at most as many entries as records.
pub proof fn lemma_due_entry_fires(records: Seq<UserRecordView>, tick: int, k: int)
    requires
        0 <= k < due_list_of(records, tick).len(),
    ensures
        fires_for_some(records, tick, due_list_of(records, tick)[k]),
        due_list_of(records, tick).len() <= records.len(),
    decreases records.len(),
{
    if records.len() > 0 {
        let earlier = records.drop_last();
        let before = due_list_of(earlier, tick);
        lemma_due_list_short(earlier, tick);
        if k < before.len() {
            lemma_due_entry_fires(earlier, tick, k);
            let i = choose|i: int|
                0 <= i < earlier.len() && due_of(#[trigger] earlier[i], tick) == Some(before[k]);
            assert(records[i] == earlier[i]);
        } else {
            assert(due_of(records[records.len() - 1], tick) == Some(due_list_of(records, tick)[k]));
        }
    }
}

/// There are at most as many entries in [`due_list_of`] as records.
pub proof fn lemma_due_list_short(records: Seq<UserRecordView>, tick: int)
    ensures
        due_list_of(records, tick).len() <= records.len(),
    decreases records.len(),
{
    if records.len() > 0 {
        lemma_due_list_short(records.drop_last(), tick);
    }
}

/// The check that fires for a record is an entry of [`due_list_of`].
pub proof fn lemma_due_record_listed(records: Seq<UserRecordView>, tick: int, i: int)
    requires
        0 <= i < records.len(),
        due_of(records[i], tick) is Some,
    ensures
        due_list_of(records, tick).contains(due_of(records[i], tick)->0),
    decreases records.len(),
{
    let earlier = records.drop_last();
    let list = due_list_of(records, tick);
    let before = due_list_of(earlier, tick);
    if i < earlier.len() {
        assert(records[i] == earlier[i]);
        lemma_due_record_listed(earlier, tick, i);
        let k = choose|k: int| 0 <= k < before.len() && before[k] == due_of(earlier[i], tick)->0;
        assert(list[k] == before[k]);
    } else {
        assert(list[list.len() - 1] == due_of(records[i], tick)->0);
    }
}

/// The schedule store, held in memory: at most one record per username, in
/// the order in which the users were first seen.
pub struct UserStore {
    rows: Vec<UserRecord>,
}

impl View for UserStore {
    type V = Seq<UserRecordView>;

    closed spec fn view(&self) -> Seq<UserRecordView> {
        record_views(self.rows@)
    }
}

impl UserStore {
    /// Whether the store is valid: no two records have the same username.
    pub open spec fn wf(&self) -> bool {
        distinct_users(self@)
    }

    /// An empty store.
    pub fn new() -> (store: UserStore)
        ensures
            store@.len() == 0,
            store.wf(),
    {
        UserStore { rows: Vec::new() }
    }

    /// The number of records.
    pub fn len(&self) -> (n: usize)
        ensures
            n == self@.len(),
    {
        self.rows.len()
    }

    /// The place of the record of `username`, if there is one.
    fn position(&self, username: &str) -> (r: Option<usize>)
        ensures
            match r {
                Some(i) => i < self@.len() && self@[i as int].username == username@,
                None => forall|i: int|
                    0 <= i < self@.len() ==> (#[trigger] self@[i]).username != username@,
            },
    {
        let wanted: String = username.to_owned();
        let mut i: usize = 0;
        while i < self.rows.len()
            invariant
                i <= self.rows.len(),
                wanted@ == username@,
                forall|k: int| 0 <= k < i ==> (#[trigger] self@[k]).username != username@,
            decreases self.rows.len() - i,
        {
            assert(self@[i as int] == self.rows@[i as int]@);
            if self.rows[i].username == wanted {
                return Some(i);
            }
            i += 1;
        }
        None
    }

    /// A copy of the record of `username`, if there is one.
    pub fn get(&self, username: &str) -> (r: Option<UserRecord>)
        requires
            self.wf(),
        ensures
            match r {
                Some(record) => place_of(self@, username@) matches Some(i) && record@ == self@[i],
                None => place_of(self@, username@) is None,
            },
    {
        match self.position(username) {
            Some(i) => {
                assert(self@[i as int] == self.rows@[i as int]@);
                Some(self.rows[i].copy())
            },
            None => None,
        }
    }

    /// Gives the record of `username`, creating it first if there is none:
    /// a new record has no project, holds the schedule of
    /// [`Settings::initial`], and comes after all the others.
    pub fn get_or_create(&mut self, username: &str) -> (record: UserRecord)
        requires
            old(self).wf(),
        ensures
            final(self).wf(),
            match place_of(old(self)@, username@) {
                Some(i) => final(self)@ == old(self)@ && record@ == old(self)@[i],
                None => final(self)@ == old(self)@.push(first_record_of(username@)) && record@
                    == first_record_of(username@),
            },
    {
        match self.position(username) {
            Some(i) => {
                assert(self@[i as int] == self.rows@[i as int]@);
                self.rows[i].copy()
            },
            None => {
                let created = UserRecord::first(username);
                let record = created.copy();
                self.rows.push(created);
                assert(self@ =~= old(self)@.push(first_record_of(username@)));
                record
            },
        }
    }

    /// Sets the project that `username` has chosen; a store without that user
    /// stays as it is.
    pub fn update_selected_project(&mut self, username: &str, project: &str)
        requires
            old(self).wf(),
        ensures
            final(self).wf(),
            final(self)@ == with_project_of(old(self)@, username@, project@),
    {
        match self.position(username) {
            Some(i) => {
                assert(self@[i as int] == self.rows@[i as int]@);
                let changed = UserRecord {
                    username: self.rows[i].username.clone(),
                    project: project.to_owned(),
                    settings: self.rows[i].settings,
                };
                self.rows.set(i, changed);
                assert(self@ =~= with_project_of(old(self)@, username@, project@));
            },
            None => {
                assert(self@ =~= with_project_of(old(self)@, username@, project@));
            },
        }
    }

    /// Replaces the schedule of `username`, triggers and goals; a store
    /// without that user stays as it is.
    pub fn update_schedule(&mut self, username: &str, schedule: Settings)
        requires
            old(self).wf(),
        ensures
            final(self).wf(),
            final(self)@ == with_schedule_of(old(self)@, username@, schedule),
    {
        match self.position(username) {
            Some(i) => {
                assert(self@[i as int] == self.rows@[i as int]@);
                let changed = UserRecord {
                    username: self.rows[i].username.clone(),
                    project: self.rows[i].project.clone(),
                    settings: schedule,
                };
                self.rows.set(i, changed);
                assert(self@ =~= with_schedule_of(old(self)@, username@, schedule));
            },
            None => {
                assert(self@ =~= with_schedule_of(old(self)@, username@, schedule));
            },
        }
    }

    /// Clears the chosen project of every user, and changes nothing else.
    pub fn clear_all_selected_projects(&mut self)
        requires
            old(self).wf(),
        ensures
            final(self).wf(),
            final(self)@ == cleared_of(old(self)@),
            none_selected(final(self)@),
    {
        let mut i: usize = 0;
        while i < self.rows.len()
            invariant
                i <= self.rows.len(),
                self@.len() == old(self)@.len(),
                forall|k: int| 0 <= k < i ==> #[trigger] self@[k] == cleared_of(old(self)@)[k],
                forall|k: int| i <= k < self@.len() ==> #[trigger] self@[k] == old(self)@[k],
            decreases self.rows.len() - i,
        {
            let ghost before = self@;
            assert(self@[i as int] == self.rows@[i as int]@);
            let changed = UserRecord {
                username: self.rows[i].username.clone(),
                project: String::new(),
                settings: self.rows[i].settings,
            };
            self.rows.set(i, changed);
            assert forall|k: int| 0 <= k < self@.len() && k != i implies #[trigger] self@[k]
                == before[k] by {
            }
            i += 1;
        }
        assert(self@ =~= cleared_of(old(self)@));
    }

    /// The users whose check fires at week-minute `tick`, in the order of the
    /// records.
    pub fn find_due(&self, tick: i64) -> (due: Vec<DueUser>)
        ensures
            due_views(due@) == due_list_of(self@, tick as int),
    {
        find_due(&self.rows, tick)
    }

    /// Copies of all the records, in order.
    pub fn records(&self) -> (list: Vec<UserRecord>)
        ensures
            record_views(list@) == self@,
    {
        let mut list: Vec<UserRecord> = Vec::new();
        let mut i: usize = 0;
        while i < self.rows.len()
            invariant
                i <= self.rows.len(),
                list@.len() == i,
                forall|k: int| 0 <= k < i ==> (#[trigger] list@[k])@ == self.rows@[k]@,
            decreases self.rows.len() - i,
        {
            list.push(self.rows[i].copy());
            i += 1;
        }
        assert(record_views(list@) =~= self@);
        list
    }
}

/// Clearing the chosen projects twice leaves what clearing them once leaves:
/// no record has a project after the first time, nor after the second, and
/// usernames and schedules are never touched.
pub proof fn lemma_clear_is_idempotent(records: Seq<UserRecordView>)
    ensures
        none_selected(cleared_of(records)),
        none_selected(cleared_of(cleared_of(records))),
        cleared_of(cleared_of(records)) == cleared_of(records),
        cleared_of(records).len() == records.len(),
        forall|i: int|
            0 <= i < records.len() ==> (#[trigger] cleared_of(records)[i]).username
                == records[i].username && cleared_of(records)[i].settings == records[i].settings,
        distinct_users(records) ==> distinct_users(cleared_of(records)),
{
    assert(cleared_of(cleared_of(records)) =~= cleared_of(records));
}

} // verus!
