use siege_reminder::datatypes::Settings;
use siege_reminder::notify::Notification;
use siege_reminder::scheduler::{Action, Event, Phase, Scheduler};
use siege_reminder::store::UserRecord;

/// 2024-01-01 00:00:00 UTC, a Monday.
const MONDAY: i64 = 1_704_067_200;

const PREFIX: &str = "https://hackatime.hackclub.com/api/v1/users/";

fn week() -> Settings {
    Settings {
        monday: (0, 2),
        tuesday: (2520, 2),
        wednesday: (3960, 3),
        thursday: (5400, 4),
        friday: (6840, 5),
        saturday: (8280, 6),
        sunday: (9720, 7),
    }
}

fn record(username: &str, project: &str, settings: Settings) -> UserRecord {
    UserRecord { username: username.to_string(), project: project.to_string(), settings }
}

fn message(username: &str, title: &str, tags: Option<&str>, body: &str) -> Action {
    Action::Send {
        notification: Notification {
            username: username.to_string(),
            title: title.to_string(),
            tags: tags.map(|t| t.to_string()),
            body: body.to_string(),
        },
    }
}

fn fetch(username: &str, start: &str) -> Action {
    Action::Fetch {
        url: format!("{}{}/stats?features=projects&start_date={}", PREFIX, username, start),
    }
}

fn answer(project: &str, total_seconds: i64) -> Event {
    Event::Fetched {
        status: 200,
        body: format!(
            "{{\"data\":{{\"projects\":[{{\"name\":\"{}\",\"total_seconds\":{}}}]}}}}",
            project, total_seconds
        )
        .into_bytes(),
    }
}

/// A scheduler that has processed the last minute of the week before
/// `MONDAY` and is idle.
fn before_monday() -> Scheduler {
    let mut scheduler = Scheduler::new();
    assert_eq!(
        scheduler.step(Event::Wake { now: MONDAY - 1 }),
        Some(Action::LoadUsers { tick: 10_079 })
    );
    assert_eq!(scheduler.step(Event::Users { rows: vec![] }), Some(Action::Sleep));
    scheduler
}

#[test]
fn a_new_scheduler_is_idle_and_has_processed_nothing() {
    let scheduler = Scheduler::new();
    assert_eq!(scheduler.phase(), Phase::Idle);
    assert_eq!(scheduler.last_processed_tick(), None);
}

#[test]
fn a_scheduler_started_in_the_first_minute_takes_it_up() {
    let mut scheduler = Scheduler::new();
    assert_eq!(scheduler.step(Event::Wake { now: MONDAY + 30 }), Some(Action::LoadUsers { tick: 0 }));
    assert_eq!(scheduler.last_processed_tick(), Some(0));
    assert_eq!(scheduler.step(Event::Users { rows: vec![] }), Some(Action::ClearProjects));
    assert_eq!(scheduler.step(Event::Cleared { ok: true }), Some(Action::Sleep));
    assert_eq!(scheduler.step(Event::Wake { now: MONDAY + 59 }), Some(Action::Sleep));
    assert_eq!(scheduler.step(Event::Wake { now: MONDAY + 60 }), Some(Action::LoadUsers { tick: 1 }));
}

#[test]
fn wake_ups_in_the_same_minute_load_the_users_once() {
    let mut scheduler = Scheduler::new();
    let now = MONDAY + 18 * 3600;
    assert_eq!(scheduler.step(Event::Wake { now }), Some(Action::LoadUsers { tick: 1080 }));
    assert_eq!(scheduler.phase(), Phase::Loading);
    assert_eq!(scheduler.step(Event::Users { rows: vec![] }), Some(Action::Sleep));
    assert_eq!(scheduler.phase(), Phase::Idle);
    assert_eq!(scheduler.last_processed_tick(), Some(1080));
    for later in 1..60 {
        assert_eq!(scheduler.step(Event::Wake { now: now + later }), Some(Action::Sleep));
        assert_eq!(scheduler.phase(), Phase::Idle);
    }
    assert_eq!(scheduler.step(Event::Wake { now: now + 60 }), Some(Action::LoadUsers { tick: 1081 }));
}

#[test]
fn a_minute_that_was_not_observed_is_not_made_up_for() {
    let mut scheduler = Scheduler::new();
    let now = MONDAY + 18 * 3600;
    assert_eq!(scheduler.step(Event::Wake { now }), Some(Action::LoadUsers { tick: 1080 }));
    assert_eq!(scheduler.step(Event::Users { rows: vec![] }), Some(Action::Sleep));
    assert_eq!(scheduler.step(Event::Wake { now: now + 300 }), Some(Action::LoadUsers { tick: 1085 }));
}

#[test]
fn monday_goal_met_exactly() {
    let mut scheduler = before_monday();
    assert_eq!(scheduler.step(Event::Wake { now: MONDAY }), Some(Action::LoadUsers { tick: 0 }));
    assert_eq!(
        scheduler.step(Event::Users { rows: vec![record("alice", "siege", week())] }),
        Some(fetch("alice", "2024-01-01T00:00:00+00:00"))
    );
    assert_eq!(scheduler.phase(), Phase::Fetching);
    assert_eq!(
        scheduler.step(answer("siege", 7200)),
        Some(message("alice", "Good Job!", Some("tada"), "You worked for  more than your goal was."))
    );
    assert_eq!(scheduler.phase(), Phase::Sending);
}

#[test]
fn monday_goal_missed_by_an_hour() {
    let mut scheduler = before_monday();
    assert_eq!(scheduler.step(Event::Wake { now: MONDAY }), Some(Action::LoadUsers { tick: 0 }));
    scheduler.step(Event::Users { rows: vec![record("alice", "siege", week())] });
    assert_eq!(
        scheduler.step(answer("siege", 3600)),
        Some(message(
            "alice",
            "You need to lock in!",
            Some("warning"),
            "You worked for 1h  less than your goal was."
        ))
    );
}

#[test]
fn a_user_without_a_project_is_reminded_and_nothing_is_fetched() {
    let mut scheduler = before_monday();
    scheduler.step(Event::Wake { now: MONDAY });
    assert_eq!(
        scheduler.step(Event::Users {
            rows: vec![record("alice", "", week()), record("bob", "", week())]
        }),
        Some(message(
            "alice",
            "Set your project.",
            None,
            "You haven't set a project for this week."
        ))
    );
    assert_eq!(scheduler.phase(), Phase::Sending);
    assert_eq!(
        scheduler.step(Event::Sent { ok: true }),
        Some(message("bob", "Set your project.", None, "You haven't set a project for this week."))
    );
    assert_eq!(scheduler.step(Event::Sent { ok: true }), Some(Action::ClearProjects));
}

#[test]
fn the_weekly_reset_comes_once_after_all_users_at_tick_zero() {
    let mut scheduler = before_monday();
    let mut resets = 0;
    let mut actions = vec![scheduler.step(Event::Wake { now: MONDAY }).unwrap()];
    actions.push(
        scheduler
            .step(Event::Users {
                rows: vec![
                    record("alice", "siege", week()),
                    record("bob", "", week()),
                    record("carol", "castle", week()),
                ],
            })
            .unwrap(),
    );
    loop {
        let event = match actions.last().unwrap() {
            Action::Fetch { .. } => answer("siege", 10_000),
            Action::Send { .. } => Event::Sent { ok: true },
            Action::ClearProjects => {
                resets += 1;
                Event::Cleared { ok: true }
            },
            Action::Sleep => break,
            Action::LoadUsers { .. } => panic!("the users were asked for twice"),
        };
        actions.push(scheduler.step(event).unwrap());
    }
    assert_eq!(resets, 1);
    assert_eq!(
        actions,
        vec![
            Action::LoadUsers { tick: 0 },
            fetch("alice", "2024-01-01T00:00:00+00:00"),
            message("alice", "Good Job!", Some("tada"), "You worked for 46m 40s  more than your goal was."),
            message("bob", "Set your project.", None, "You haven't set a project for this week."),
            fetch("carol", "2024-01-01T00:00:00+00:00"),
            message("carol", "You need to lock in!", Some("warning"), "You worked for 2h  less than your goal was."),
            Action::ClearProjects,
            Action::Sleep,
        ]
    );
    assert_eq!(scheduler.phase(), Phase::Idle);
    assert_eq!(scheduler.step(Event::Wake { now: MONDAY + 59 }), Some(Action::Sleep));
}

#[test]
fn the_weekly_reset_comes_at_tick_zero_without_users() {
    let mut scheduler = before_monday();
    scheduler.step(Event::Wake { now: MONDAY });
    assert_eq!(scheduler.step(Event::Users { rows: vec![] }), Some(Action::ClearProjects));
    assert_eq!(scheduler.phase(), Phase::Clearing);
    assert_eq!(scheduler.step(Event::Cleared { ok: false }), Some(Action::Sleep));
    assert_eq!(scheduler.phase(), Phase::Idle);
}

#[test]
fn the_weekly_reset_comes_at_tick_zero_when_the_store_fails() {
    let mut scheduler = before_monday();
    scheduler.step(Event::Wake { now: MONDAY });
    assert_eq!(scheduler.step(Event::StoreFailed), Some(Action::ClearProjects));
    assert_eq!(scheduler.step(Event::Cleared { ok: true }), Some(Action::Sleep));
}

#[test]
fn no_reset_at_another_tick() {
    let mut scheduler = Scheduler::new();
    scheduler.step(Event::Wake { now: MONDAY + 2520 * 60 });
    assert_eq!(
        scheduler.step(Event::Users { rows: vec![record("alice", "", week())] }),
        Some(message(
            "alice",
            "Set your project.",
            None,
            "You haven't set a project for this week."
        ))
    );
    assert_eq!(scheduler.step(Event::Sent { ok: true }), Some(Action::Sleep));
    let mut scheduler = Scheduler::new();
    scheduler.step(Event::Wake { now: MONDAY + 2520 * 60 });
    assert_eq!(scheduler.step(Event::StoreFailed), Some(Action::Sleep));
}

#[test]
fn a_failing_service_skips_that_user_only() {
    let mut scheduler = before_monday();
    scheduler.step(Event::Wake { now: MONDAY });
    assert_eq!(
        scheduler.step(Event::Users {
            rows: vec![
                record("alice", "siege", week()),
                record("bob", "castle", week()),
                record("carol", "moat", week()),
                record("dave", "keep", week()),
            ]
        }),
        Some(fetch("alice", "2024-01-01T00:00:00+00:00"))
    );
    assert_eq!(
        scheduler.step(Event::Fetched { status: 500, body: b"{}".to_vec() }),
        Some(fetch("bob", "2024-01-01T00:00:00+00:00"))
    );
    assert_eq!(scheduler.step(Event::FetchFailed), Some(fetch("carol", "2024-01-01T00:00:00+00:00")));
    assert_eq!(
        scheduler.step(Event::Fetched { status: 200, body: b"not json".to_vec() }),
        Some(fetch("dave", "2024-01-01T00:00:00+00:00"))
    );
    assert_eq!(
        scheduler.step(Event::Fetched { status: 404, body: b"{}".to_vec() }),
        Some(Action::ClearProjects)
    );
}

#[test]
fn a_message_that_fails_is_not_sent_again() {
    let mut scheduler = Scheduler::new();
    scheduler.step(Event::Wake { now: MONDAY + 2520 * 60 });
    scheduler.step(Event::Users {
        rows: vec![record("alice", "siege", week()), record("bob", "castle", week())],
    });
    assert!(matches!(scheduler.step(answer("siege", 1)), Some(Action::Send { .. })));
    assert_eq!(scheduler.step(Event::Sent { ok: false }), Some(fetch("bob", "2024-01-01T00:00:00+00:00")));
}

#[test]
fn a_project_that_the_service_does_not_list_counts_as_zero_seconds() {
    let mut scheduler = Scheduler::new();
    scheduler.step(Event::Wake { now: MONDAY + 2520 * 60 + 59 });
    scheduler.step(Event::Users { rows: vec![record("alice", "siege", week())] });
    assert_eq!(
        scheduler.step(answer("castle", 99_999)),
        Some(message(
            "alice",
            "You need to lock in!",
            Some("warning"),
            "You worked for 2h  less than your goal was."
        ))
    );
}

#[test]
fn the_window_starts_at_the_trigger_of_the_day_before() {
    let mut scheduler = Scheduler::new();
    let settings = Settings { monday: (1080, 2), ..week() };
    scheduler.step(Event::Wake { now: MONDAY + 3960 * 60 });
    assert_eq!(
        scheduler.step(Event::Users { rows: vec![record("alice", "siege", settings)] }),
        Some(fetch("alice", "2024-01-02T18:00:00+00:00"))
    );
    let mut scheduler = Scheduler::new();
    scheduler.step(Event::Wake { now: MONDAY + 2520 * 60 });
    assert_eq!(
        scheduler.step(Event::Users { rows: vec![record("alice", "siege", settings)] }),
        Some(fetch("alice", "2024-01-01T18:00:00+00:00"))
    );
}

#[test]
fn the_sunday_check_counts_the_whole_week_against_the_weekly_goal() {
    let mut scheduler = Scheduler::new();
    scheduler.step(Event::Wake { now: MONDAY + 9720 * 60 });
    assert_eq!(
        scheduler.step(Event::Users { rows: vec![record("alice", "siege", week())] }),
        Some(fetch("alice", "2024-01-01T00:00:00+00:00"))
    );
    assert_eq!(
        scheduler.step(answer("siege", 30 * 3600)),
        Some(message(
            "alice",
            "Good Job, don't forget to submit!",
            Some("tada"),
            "You worked for 1h  more than your weekly goal was."
        ))
    );
    assert_eq!(scheduler.step(Event::Sent { ok: true }), Some(Action::Sleep));
}

#[test]
fn sunday_wins_when_two_triggers_are_the_same() {
    let mut scheduler = before_monday();
    scheduler.step(Event::Wake { now: MONDAY });
    scheduler.step(Event::Users { rows: vec![record("alice", "siege", Settings::default())] });
    assert_eq!(
        scheduler.step(answer("siege", 0)),
        Some(message(
            "alice",
            "You need to lock in!",
            Some("warning"),
            "You're 11h  short of your weekly goal and you need to submit soon."
        ))
    );
}

#[test]
fn users_that_are_not_due_are_passed_over() {
    let mut scheduler = Scheduler::new();
    scheduler.step(Event::Wake { now: MONDAY + 5400 * 60 });
    assert_eq!(
        scheduler.step(Event::Users {
            rows: vec![
                record("alice", "siege", Settings::default()),
                record("bob", "castle", week()),
            ]
        }),
        Some(fetch("bob", "2024-01-03T18:00:00+00:00"))
    );
}

#[test]
fn a_user_whose_window_cannot_be_written_is_passed_over() {
    let mut scheduler = Scheduler::new();
    let far = Settings { monday: (i64::MAX, 1), ..week() };
    scheduler.step(Event::Wake { now: MONDAY + 2520 * 60 });
    assert_eq!(
        scheduler.step(Event::Users {
            rows: vec![record("alice", "siege", far), record("bob", "castle", week())]
        }),
        Some(fetch("bob", "2024-01-01T00:00:00+00:00"))
    );
}

#[test]
fn an_event_out_of_turn_changes_nothing() {
    let mut scheduler = Scheduler::new();
    assert_eq!(scheduler.step(Event::Sent { ok: true }), None);
    assert_eq!(scheduler.step(Event::Users { rows: vec![record("a", "b", week())] }), None);
    assert_eq!(scheduler.step(Event::Cleared { ok: true }), None);
    assert_eq!(scheduler.step(Event::FetchFailed), None);
    assert_eq!(scheduler.step(Event::StoreFailed), None);
    assert_eq!(scheduler.step(answer("a", 1)), None);
    assert_eq!(scheduler.phase(), Phase::Idle);
    scheduler.step(Event::Wake { now: MONDAY + 2520 * 60 });
    assert_eq!(scheduler.step(Event::Wake { now: MONDAY + 2521 * 60 }), None);
    assert_eq!(scheduler.step(Event::Sent { ok: true }), None);
    assert_eq!(scheduler.phase(), Phase::Loading);
    assert_eq!(scheduler.last_processed_tick(), Some(2520));
    scheduler.step(Event::Users { rows: vec![record("alice", "siege", week())] });
    assert_eq!(scheduler.step(Event::Sent { ok: true }), None);
    assert_eq!(scheduler.step(Event::Users { rows: vec![] }), None);
    assert_eq!(scheduler.phase(), Phase::Fetching);
    assert!(matches!(scheduler.step(answer("siege", 1)), Some(Action::Send { .. })));
    assert_eq!(scheduler.step(Event::FetchFailed), None);
    assert_eq!(scheduler.phase(), Phase::Sending);
}
