//! The scheduler loop as a state machine. Its driver wakes it up at short
//! intervals, performs the action that each step asks for, and hands back
//! what came of it; every decision in between is taken here.

use vstd::prelude::*;
use crate::clock::{minute_instant, minute_instant_of};
use crate::datatypes::Weekday;
use crate::notify::{
    goal_message_of, goal_notification, outcome_of, project_reminder, reminder_of, Notification,
    NotificationView,
};
use crate::store::{
    due_list_of, due_views, find_due, record_views, DueUser, DueUserView, UserRecord,
    UserRecordView,
};
use crate::time::{to_week_minute, week_minute_of};
use crate::worktime::{answer_seconds, fetch_seconds, stats_request_of, stats_url};

verus! {

/// What the scheduler is waiting for.
#[derive(Clone, Copy, Debug, PartialEq, Eq, Structural)]
pub enum Phase {
    /// Nothing is in process; the next wake-up is awaited.
    Idle,
    /// The users of the store were asked for.
    Loading,
    /// The seconds worked by the user in turn were asked for.
    Fetching,
    /// A message for the user in turn is on its way.
    Sending,
    /// The weekly reset was asked for.
    Clearing,
}

/// What the driver is to do next.
#[derive(Clone, Debug, PartialEq, Eq)]
pub enum Action {
    /// Wait for the next wake-up and report it with [`Event::Wake`].
    Sleep,
    /// Read the users from the store and report them with [`Event::Users`],
    /// or [`Event::StoreFailed`]. Users without a trigger at `tick` may be left
    /// out.
    LoadUsers { tick: i64 },
    /// Get `url` and report the answer with [`Event::Fetched`], or
    /// [`Event::FetchFailed`] where none came.
    Fetch { url: String },
    /// Post the message and report with [`Event::Sent`].
    Send { notification: Notification },
    /// Clear the chosen project of every user and report with
    /// [`Event::Cleared`].
    ClearProjects,
}

/// What the driver reports.
#[derive(Clone, Debug, PartialEq, Eq)]
pub enum Event {
    /// The timer fired at the instant `now`, in seconds since the epoch.
    Wake { now: i64 },
    /// The store gave these users.
    Users { rows: Vec<UserRecord> },
    /// The store could not be read.
    StoreFailed,
    /// The service answered with this status and body.
    Fetched { status: u16, body: Vec<u8> },
    /// The request did not get an answer, or not in time.
    FetchFailed,
    /// The message was posted, or failed to be.
    Sent { ok: bool },
    /// The weekly reset was done, or failed.
    Cleared { ok: bool },
}

/// The mathematical content of an [`Action`].
pub enum ActionView {
    Sleep,
    LoadUsers { tick: int },
    Fetch { url: Seq<char> },
    Send { notification: NotificationView },
    ClearProjects,
}

/// The mathematical content of an [`Event`].
pub enum EventView {
    Wake { now: int },
    Users { rows: Seq<UserRecordView> },
    StoreFailed,
    Fetched { status: u16, body: Seq<u8> },
    FetchFailed,
    Sent { ok: bool },
    Cleared { ok: bool },
}

impl View for Action {
    type V = ActionView;

    open spec fn view(&self) -> ActionView {
        match *self {
            Action::Sleep => ActionView::Sleep,
            Action::LoadUsers { tick } => ActionView::LoadUsers { tick: tick as int },
            Action::Fetch { url } => ActionView::Fetch { url: url@ },
            Action::Send { notification } => ActionView::Send { notification: notification@ },
            Action::ClearProjects => ActionView::ClearProjects,
        }
    }
}

impl View for Event {
    type V = EventView;

    open spec fn view(&self) -> EventView {
        match *self {
            Event::Wake { now } => EventView::Wake { now: now as int },
            Event::Users { rows } => EventView::Users { rows: record_views(rows@) },
            Event::StoreFailed => EventView::StoreFailed,
            Event::Fetched { status, body } => EventView::Fetched { status, body: body@ },
            Event::FetchFailed => EventView::FetchFailed,
            Event::Sent { ok } => EventView::Sent { ok },
            Event::Cleared { ok } => EventView::Cleared { ok },
        }
    }
}

/// The scheduler's state.
pub struct Scheduler {
    /// The week-minute that was processed last, or is in process; `None`
    /// before the first wake-up.
    last: Option<i64>,
    /// The instant of the wake-up that began it.
    now: i64,
    phase: Phase,
    /// The users due at that week-minute.
    queue: Vec<DueUser>,
    /// How many of them are done.
    cursor: usize,
}

/// The mathematical content of a [`Scheduler`].
pub struct SchedulerView {
    /// The week-minute that was processed last, or is in process; `None`
    /// before the first wake-up.
    pub last: Option<int>,
    /// The instant of the wake-up that began it.
    pub now: int,
    pub phase: Phase,
    /// The users due at that week-minute.
    pub queue: Seq<DueUserView>,
    /// How many of them are done.
    pub cursor: int,
}

impl View for Scheduler {
    type V = SchedulerView;

    closed spec fn view(&self) -> SchedulerView {
        SchedulerView {
            last: match self.last {
                Some(tick) => Some(tick as int),
                None => None,
            },
            now: self.now as int,
            phase: self.phase,
            queue: due_views(self.queue@),
            cursor: self.cursor as int,
        }
    }
}

/// The state in which a scheduler starts: idle, with no week-minute
/// processed, so that the first wake-up is taken up whenever it comes.
pub open spec fn initial_state() -> SchedulerView {
    SchedulerView {
        last: None,
        now: 0,
        phase: Phase::Idle,
        queue: Seq::<DueUserView>::empty(),
        cursor: 0,
    }
}

/// Whether a state is one that a scheduler can be in: the users done are
/// among those due, and while a request or a message for a user is under way
/// that user is in turn.
pub open spec fn valid_state(s: SchedulerView) -> bool {
    &&& 0 <= s.cursor <= s.queue.len()
    &&& (s.phase == Phase::Fetching || s.phase == Phase::Sending) ==> s.cursor < s.queue.len()
    &&& i64::MIN <= s.now <= i64::MAX
}

/// The address at which the seconds worked by `due` are asked for: the
/// statistics from the start of the user's window in the week of `now`, or
/// `None` where that instant cannot be written.
pub open spec fn request_of(now: int, due: DueUserView) -> Option<Seq<char>> {
    let start = minute_instant_of(now, due.window_minute);
    if i64::MIN <= start <= i64::MAX {
        stats_request_of(due.username, start as i64)
    } else {
        None
    }
}

/// The end of a week-minute's work: at week-minute 0 the weekly reset, and at
/// every other the wait for the next wake-up.
pub open spec fn finish_of(s: SchedulerView) -> (SchedulerView, ActionView) {
    if s.last == Some(0int) {
        (SchedulerView { phase: Phase::Clearing, ..s }, ActionView::ClearProjects)
    } else {
        (SchedulerView { phase: Phase::Idle, ..s }, ActionView::Sleep)
    }
}

/// What is done for the users from the one in turn on: the first of them
/// without a project is reminded to choose one; the first with a project
/// whose request can be written has the seconds worked asked for; users
/// before these are passed over; and when no user is left the week-minute's
/// work ends as [`finish_of`] says.
pub open spec fn advance_of(s: SchedulerView) -> (SchedulerView, ActionView)
    decreases s.queue.len() - s.cursor,
{
    if s.cursor < 0 || s.cursor >= s.queue.len() {
        finish_of(s)
    } else {
        let due = s.queue[s.cursor];
        if due.project.len() == 0 {
            (
                SchedulerView { phase: Phase::Sending, ..s },
                ActionView::Send { notification: reminder_of(due.username) },
            )
        } else {
            match request_of(s.now, due) {
                Some(url) => (SchedulerView { phase: Phase::Fetching, ..s }, ActionView::Fetch {
                    url,
                }),
                None => advance_of(SchedulerView { cursor: s.cursor + 1, ..s }),
            }
        }
    }
}

/// The state with the user in turn done.
pub open spec fn passed_of(s: SchedulerView) -> SchedulerView {
    SchedulerView { cursor: s.cursor + 1, ..s }
}

/// What a wake-up at the instant `now` leads to. In the week-minute that was
/// processed last nothing is done. In any other, that minute becomes the one
/// in process and the users are asked for.
pub open spec fn wake_of(s: SchedulerView, now: int) -> (SchedulerView, ActionView) {
    let tick = week_minute_of(now);
    if s.last == Some(tick) {
        (s, ActionView::Sleep)
    } else {
        (
            SchedulerView {
                last: Some(tick),
                now,
                phase: Phase::Loading,
                queue: Seq::<DueUserView>::empty(),
                cursor: 0,
            },
            ActionView::LoadUsers { tick },
        )
    }
}

/// What an answer of the time-keeping service leads to for the user in turn:
/// where it gives the seconds worked, the message that compares them with the
/// user's goal, as a weekly one for the Sunday check; where it does not, no
/// message, and the next user's turn.
pub open spec fn fetched_of(s: SchedulerView, status: u16, body: Seq<u8>) -> (
    SchedulerView,
    ActionView,
) {
    let due = s.queue[s.cursor];
    match answer_seconds(status, body, due.project) {
        Ok(seconds) => (
            SchedulerView { phase: Phase::Sending, ..s },
            ActionView::Send {
                notification: goal_message_of(
                    due.username,
                    outcome_of(seconds as int, due.goal_seconds, due.slot == Weekday::Sunday),
                ),
            },
        ),
        Err(_) => advance_of(passed_of(s)),
    }
}

/// The week-minute in process. Outside [`Phase::Idle`] there always is one;
/// for a state without one this is week-minute 0.
pub open spec fn tick_of(s: SchedulerView) -> int {
    match s.last {
        Some(tick) => tick,
        None => 0,
    }
}

/// The scheduler's transition function: the state after `event` and the
/// action that the driver is to perform, or the same state and no action
/// where the event is not one that the state waits for.
pub open spec fn step_of(s: SchedulerView, event: EventView) -> (SchedulerView, Option<ActionView>) {
    match (s.phase, event) {
        (Phase::Idle, EventView::Wake { now }) => (wake_of(s, now).0, Some(wake_of(s, now).1)),
        (Phase::Loading, EventView::Users { rows }) => {
            let loaded = SchedulerView { queue: due_list_of(rows, tick_of(s)), cursor: 0, ..s };
            (advance_of(loaded).0, Some(advance_of(loaded).1))
        },
        (Phase::Loading, EventView::StoreFailed) => {
            let loaded = SchedulerView { queue: Seq::<DueUserView>::empty(), cursor: 0, ..s };
            (finish_of(loaded).0, Some(finish_of(loaded).1))
        },
        (Phase::Fetching, EventView::Fetched { status, body }) => (
            fetched_of(s, status, body).0,
            Some(fetched_of(s, status, body).1),
        ),
        (Phase::Fetching, EventView::FetchFailed) => (
            advance_of(passed_of(s)).0,
            Some(advance_of(passed_of(s)).1),
        ),
        (Phase::Sending, EventView::Sent { ok }) => (
            advance_of(passed_of(s)).0,
            Some(advance_of(passed_of(s)).1),
        ),
        (Phase::Clearing, EventView::Cleared { ok }) => (
            SchedulerView { phase: Phase::Idle, ..s },
            Some(ActionView::Sleep),
        ),
        _ => (s, None),
    }
}

/// The content of an optional action.
pub open spec fn optional_action_view(action: Option<Action>) -> Option<ActionView> {
    match action {
        Some(a) => Some(a@),
        None => None,
    }
}

impl Scheduler {
    /// Whether the scheduler is in a state that it can be in.
    pub open spec fn wf(&self) -> bool {
        valid_state(self@)
    }

    /// A scheduler in its initial state.
    pub fn new() -> (scheduler: Scheduler)
        ensures
            scheduler@ == initial_state(),
            scheduler.wf(),
    {
        let scheduler = Scheduler {
            last: None,
            now: 0,
            phase: Phase::Idle,
            queue: Vec::new(),
            cursor: 0,
        };
        assert(scheduler@.queue =~= Seq::<DueUserView>::empty());
        scheduler
    }

    /// The week-minute that was processed last, or is in process; `None`
    /// before the first wake-up.
    pub fn last_processed_tick(&self) -> (tick: Option<i64>)
        ensures
            match tick {
                Some(t) => self@.last == Some(t as int),
                None => self@.last is None,
            },
    {
        self.last
    }

    /// What the scheduler is waiting for.
    pub fn phase(&self) -> (phase: Phase)
        ensures
            phase == self@.phase,
    {
        self.phase
    }

    /// Builds the request for the seconds worked by the user at `place`.
    fn request(&self, place: usize) -> (r: Option<String>)
        requires
            place < self@.queue.len(),
        ensures
            crate::worktime::text_view(r) == request_of(self@.now, self@.queue[place as int]),
    {
        assert(self@.queue[place as int] == self.queue@[place as int]@);
        let due = &self.queue[place];
        match minute_instant(self.now, due.window_minute) {
            Some(start) => stats_url(due.username.as_str(), start),
            None => None,
        }
    }

    /// Takes up the users from the one in turn on.
    fn advance(&mut self) -> (action: Action)
        requires
            0 <= old(self)@.cursor <= old(self)@.queue.len(),
        ensures
            final(self).wf(),
            (final(self)@, action@) == advance_of(old(self)@),
    {
        while self.cursor < self.queue.len()
            invariant
                self.cursor <= self.queue.len(),
                advance_of(self@) == advance_of(old(self)@),
            decreases self.queue.len() - self.cursor,
        {
            let ghost before = self@;
            assert(before.queue[before.cursor] == self.queue@[self.cursor as int]@);
            if self.queue[self.cursor].project.as_str().is_empty() {
                let notification = project_reminder(self.queue[self.cursor].username.as_str());
                self.phase = Phase::Sending;
                return Action::Send { notification };
            }
            match self.request(self.cursor) {
                Some(url) => {
                    self.phase = Phase::Fetching;
                    return Action::Fetch { url };
                },
                None => {},
            }
            self.cursor = self.cursor + 1;
            assert(self@ == passed_of(before));
        }
        self.finish()
    }

    /// Ends the week-minute's work when all users are done.
    fn finish(&mut self) -> (action: Action)
        requires
            old(self)@.cursor == old(self)@.queue.len(),
        ensures
            final(self).wf(),
            (final(self)@, action@) == finish_of(old(self)@),
    {
        let week_begins: bool = match self.last {
            Some(tick) => tick == 0,
            None => false,
        };
        if week_begins {
            self.phase = Phase::Clearing;
            Action::ClearProjects
        } else {
            self.phase = Phase::Idle;
            Action::Sleep
        }
    }

    /// Takes one event and says what the driver is to do next. An event that
    /// does not answer what the scheduler waits for changes nothing and gives
    /// `None`.
    pub fn step(&mut self, event: Event) -> (action: Option<Action>)
        requires
            old(self).wf(),
        ensures
            final(self).wf(),
            (final(self)@, optional_action_view(action)) == step_of(old(self)@, event@),
    {
        match event {
            Event::Wake { now } => {
                if self.phase != Phase::Idle {
                    return None;
                }
                let tick: i64 = to_week_minute(now);
                let seen: bool = match self.last {
                    Some(last) => last == tick,
                    None => false,
                };
                if seen {
                    return Some(Action::Sleep);
                }
                self.last = Some(tick);
                self.now = now;
                self.phase = Phase::Loading;
                self.queue = Vec::new();
                self.cursor = 0;
                assert(self@.queue =~= Seq::<DueUserView>::empty());
                Some(Action::LoadUsers { tick })
            },
            Event::Users { rows } => {
                if self.phase != Phase::Loading {
                    return None;
                }
                let tick: i64 = match self.last {
                    Some(tick) => tick,
                    None => 0,
                };
                self.queue = find_due(&rows, tick);
                self.cursor = 0;
                Some(self.advance())
            },
            Event::StoreFailed => {
                if self.phase != Phase::Loading {
                    return None;
                }
                self.queue = Vec::new();
                self.cursor = 0;
                assert(self@.queue =~= Seq::<DueUserView>::empty());
                Some(self.finish())
            },
            Event::Fetched { status, body } => {
                if self.phase != Phase::Fetching {
                    return None;
                }
                assert(self@.queue.len() == self.queue@.len());
                assert(self.cursor < self.queue.len());
                assert(self@.queue[self@.cursor] == self.queue@[self.cursor as int]@);
                let due = &self.queue[self.cursor];
                match fetch_seconds(status, body.as_slice(), due.project.as_str()) {
                    Ok(seconds) => {
                        let weekly: bool = match due.slot {
                            Weekday::Sunday => true,
                            _ => false,
                        };
                        let notification = goal_notification(
                            due.username.as_str(),
                            seconds,
                            due.goal_seconds,
                            weekly,
                        );
                        self.phase = Phase::Sending;
                        Some(Action::Send { notification })
                    },
                    Err(_) => {
                        self.cursor = self.cursor + 1;
                        Some(self.advance())
                    },
                }
            },
            Event::FetchFailed => {
                if self.phase != Phase::Fetching {
                    return None;
                }
                assert(self@.queue.len() == self.queue@.len());
                assert(self.cursor < self.queue.len());
                self.cursor = self.cursor + 1;
                Some(self.advance())
            },
            Event::Sent { ok } => {
                if self.phase != Phase::Sending {
                    return None;
                }
                assert(self@.queue.len() == self.queue@.len());
                assert(self.cursor < self.queue.len());
                self.cursor = self.cursor + 1;
                Some(self.advance())
            },
            Event::Cleared { ok } => {
                if self.phase != Phase::Clearing {
                    return None;
                }
                self.phase = Phase::Idle;
                Some(Action::Sleep)
            },
        }
    }
}

/// Whether the work of a week-minute is under way.
pub open spec fn in_process(s: SchedulerView) -> bool {
    s.phase == Phase::Loading || s.phase == Phase::Fetching || s.phase == Phase::Sending
}

/// The state after a sequence of events, taken in order.
pub open spec fn run_of(s: SchedulerView, events: Seq<EventView>) -> SchedulerView
    decreases events.len(),
{
    if events.len() == 0 {
        s
    } else {
        step_of(run_of(s, events.drop_last()), events.last()).0
    }
}

/// How often the weekly reset is asked for while a sequence of events is
/// taken in.
pub open spec fn resets_in(s: SchedulerView, events: Seq<EventView>) -> nat
    decreases events.len(),
{
    if events.len() == 0 {
        0
    } else {
        let before = run_of(s, events.drop_last());
        let asked: nat = if step_of(before, events.last()).1 == Some(ActionView::ClearProjects) {
            1
        } else {
            0
        };
        resets_in(s, events.drop_last()) + asked
    }
}

/// How often the users are asked for while a sequence of events is taken in.
pub open spec fn loads_in(s: SchedulerView, events: Seq<EventView>) -> nat
    decreases events.len(),
{
    if events.len() == 0 {
        0
    } else {
        let before = run_of(s, events.drop_last());
        let asked: nat = if step_of(before, events.last()).1 matches Some(
            ActionView::LoadUsers { .. },
        ) {
            1
        } else {
            0
        };
        loads_in(s, events.drop_last()) + asked
    }
}

/// Taking up the users changes neither the week-minute in process nor the
/// users due, only moves on in their list, and leaves the scheduler waiting
/// for the answer to the very action that it gives: a request or a message
/// for a user in turn, the weekly reset once all users are done at
/// week-minute 0, and the next wake-up once they are done at any other.
pub proof fn lemma_advance(s: SchedulerView)
    requires
        0 <= s.cursor <= s.queue.len(),
        i64::MIN <= s.now <= i64::MAX,
    ensures
        ({
            let (end, action) = advance_of(s);
            &&& valid_state(end)
            &&& end.last == s.last && end.now == s.now && end.queue == s.queue
            &&& s.cursor <= end.cursor
            &&& action is ClearProjects <==> end.phase == Phase::Clearing
            &&& action is Sleep <==> end.phase == Phase::Idle
            &&& action is Fetch <==> end.phase == Phase::Fetching
            &&& action is Send <==> end.phase == Phase::Sending
            &&& !(action is LoadUsers)
            &&& end.phase != Phase::Loading
            &&& end.phase == Phase::Clearing ==> end.last == Some(0int) && end.cursor
                == end.queue.len()
            &&& end.phase == Phase::Idle ==> end.last != Some(0int) && end.cursor == end.queue.len()
        }),
    decreases s.queue.len() - s.cursor,
{
    if s.cursor < s.queue.len() {
        let due = s.queue[s.cursor];
        if due.project.len() != 0 && request_of(s.now, due) is None {
            lemma_advance(passed_of(s));
        }
    }
}

/// A step keeps a valid state valid and changes the week-minute in process
/// only on a wake-up taken while idle. The users are asked for only on such a
/// wake-up in a week-minute other than the last one processed. The weekly
/// reset is asked for only when the work of week-minute 0 ends, with all
/// users done; when the work of any other week-minute ends, the next wake-up
/// is awaited.
pub proof fn lemma_step(s: SchedulerView, event: EventView)
    requires
        valid_state(s),
        event matches EventView::Wake { now } ==> i64::MIN <= now <= i64::MAX,
    ensures
        ({
            let (end, action) = step_of(s, event);
            &&& valid_state(end)
            &&& !(s.phase == Phase::Idle && event is Wake) ==> end.last == s.last
            &&& action matches Some(ActionView::LoadUsers { tick }) ==> s.phase == Phase::Idle
                && event is Wake && tick == week_minute_of(event->now) && s.last != Some(tick)
                && end.last == Some(tick) && end.phase == Phase::Loading
            &&& action == Some(ActionView::ClearProjects) ==> in_process(s) && s.last == Some(0int)
                && end.phase == Phase::Clearing && end.cursor == end.queue.len()
            &&& in_process(s) && !in_process(end) ==> (if s.last == Some(0int) {
                action == Some(ActionView::ClearProjects) && end.phase == Phase::Clearing
            } else {
                action == Some(ActionView::Sleep) && end.phase == Phase::Idle
            })
            &&& s.phase == Phase::Clearing ==> end.phase == Phase::Clearing || (end.phase
                == Phase::Idle && action == Some(ActionView::Sleep))
            &&& s.phase == Phase::Idle ==> end.phase == Phase::Idle || end.phase == Phase::Loading
            &&& in_process(s) ==> in_process(end) || end.phase == Phase::Clearing || end.phase
                == Phase::Idle
        }),
{
    match (s.phase, event) {
        (Phase::Loading, EventView::Users { rows }) => {
            let loaded = SchedulerView { queue: due_list_of(rows, tick_of(s)), cursor: 0, ..s };
            lemma_advance(loaded);
        },
        (Phase::Fetching, EventView::Fetched { status, body }) => {
            lemma_advance(passed_of(s));
        },
        (Phase::Fetching, EventView::FetchFailed) => {
            lemma_advance(passed_of(s));
        },
        (Phase::Sending, EventView::Sent { ok }) => {
            lemma_advance(passed_of(s));
        },
        _ => {},
    }
}

/// Whether every wake-up among the events comes at a representable instant.
pub open spec fn wakes_in_range(events: Seq<EventView>) -> bool {
    forall|k: int|
        0 <= k < events.len() ==> ((#[trigger] events[k]) matches EventView::Wake { now }
            ==> i64::MIN <= now <= i64::MAX)
}

/// Whether no event of the sequence is a wake-up.
pub open spec fn no_wake(events: Seq<EventView>) -> bool {
    forall|k: int| 0 <= k < events.len() ==> !((#[trigger] events[k]) is Wake)
}

/// Without a wake-up the week-minute in process stays, the users are not
/// asked for, and the state stays valid.
pub proof fn lemma_run_without_wake(s: SchedulerView, events: Seq<EventView>)
    requires
        valid_state(s),
        no_wake(events),
    ensures
        valid_state(run_of(s, events)),
        run_of(s, events).last == s.last,
        loads_in(s, events) == 0,
    decreases events.len(),
{
    if events.len() > 0 {
        let earlier = events.drop_last();
        assert forall|k: int| 0 <= k < earlier.len() implies !((#[trigger] earlier[k]) is Wake) by {
            assert(earlier[k] == events[k]);
        }
        lemma_run_without_wake(s, earlier);
        assert(!(events[events.len() - 1] is Wake));
        lemma_step(run_of(s, earlier), events.last());
    }
}

/// De-duplication of wake-ups: of two wake-ups in the same week-minute with
/// no wake-up between them, whatever else is reported in between, the second
/// changes nothing and does not ask for the users; where the scheduler is
/// idle by then, it is told to sleep again.
pub proof fn lemma_same_minute_wakes_once(
    s: SchedulerView,
    first: int,
    between: Seq<EventView>,
    second: int,
)
    requires
        valid_state(s),
        i64::MIN <= first <= i64::MAX,
        i64::MIN <= second <= i64::MAX,
        week_minute_of(first) == week_minute_of(second),
        s.phase == Phase::Idle,
        no_wake(between),
    ensures
        ({
            let woken = step_of(s, EventView::Wake { now: first }).0;
            let later = run_of(woken, between);
            let (end, action) = step_of(later, EventView::Wake { now: second });
            &&& end == later
            &&& !(action matches Some(ActionView::LoadUsers { .. }))
            &&& later.phase == Phase::Idle ==> action == Some(ActionView::Sleep)
            &&& loads_in(woken, between.push(EventView::Wake { now: second })) == 0
        }),
{
    let woken = step_of(s, EventView::Wake { now: first }).0;
    lemma_step(s, EventView::Wake { now: first });
    assert(woken.last == Some(week_minute_of(first)));
    lemma_run_without_wake(woken, between);
    let all = between.push(EventView::Wake { now: second });
    assert(all.drop_last() =~= between);
    assert(all.last() == EventView::Wake { now: second });
}

/// The weekly reset, once per week: in the work that a wake-up in a new
/// week-minute begins, for as long as no other wake-up is reported, the reset
/// is asked for at most once; never at a week-minute other than 0; and by the
/// time the scheduler is idle again at week-minute 0, exactly once. While
/// users are still in process it has not been asked for.
pub proof fn lemma_one_reset_per_week(s: SchedulerView, now: int, events: Seq<EventView>)
    requires
        valid_state(s),
        s.phase == Phase::Idle,
        i64::MIN <= now <= i64::MAX,
        s.last != Some(week_minute_of(now)),
        no_wake(events),
    ensures
        ({
            let begun = step_of(s, EventView::Wake { now }).0;
            let end = run_of(begun, events);
            let resets = resets_in(begun, events);
            &&& end.last == Some(week_minute_of(now))
            &&& in_process(end) ==> resets == 0
            &&& end.phase == Phase::Clearing ==> resets == 1 && week_minute_of(now) == 0
            &&& end.phase == Phase::Idle ==> resets == (if week_minute_of(now) == 0 {
                1nat
            } else {
                0nat
            })
        }),
    decreases events.len(),
{
    let begun = step_of(s, EventView::Wake { now }).0;
    lemma_step(s, EventView::Wake { now });
    if events.len() > 0 {
        let earlier = events.drop_last();
        assert forall|k: int| 0 <= k < earlier.len() implies !((#[trigger] earlier[k]) is Wake) by {
            assert(earlier[k] == events[k]);
        }
        lemma_one_reset_per_week(s, now, earlier);
        lemma_run_without_wake(begun, earlier);
        assert(!(events[events.len() - 1] is Wake));
        lemma_step(run_of(begun, earlier), events.last());
    }
}

} // verus!
