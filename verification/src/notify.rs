//! The notification dispatcher's messages: what is sent to a user, and to
//! which address.

use vstd::prelude::*;
use vstd::string::*;
use crate::text::{hms_text, magnitude, magnitude_to_hms};

verus! {

/// How a goal check came out.
#[derive(Clone, Copy, Debug, PartialEq, Eq)]
pub struct Outcome {
    /// Whether the goal was reached: the difference is not negative.
    pub over: bool,
    /// Seconds worked less seconds asked for.
    pub delta_seconds: i128,
    /// Whether this is the Sunday check, which measures the whole week.
    pub weekly: bool,
}

/// A push message for one user.
#[derive(Clone, Debug, PartialEq, Eq)]
pub struct Notification {
    /// The user, whose name is also the last part of the address.
    pub username: String,
    /// The `Title` header.
    pub title: String,
    /// The `Tags` header, where the message has one.
    pub tags: Option<String>,
    /// The plain-text body.
    pub body: String,
}

/// The mathematical content of a [`Notification`].
pub struct NotificationView {
    pub username: Seq<char>,
    pub title: Seq<char>,
    pub tags: Option<Seq<char>>,
    pub body: Seq<char>,
}

impl View for Notification {
    type V = NotificationView;

    open spec fn view(&self) -> NotificationView {
        NotificationView {
            username: self.username@,
            title: self.title@,
            tags: match self.tags {
                Some(tags) => Some(tags@),
                None => None,
            },
            body: self.body@,
        }
    }
}

/// The outcome of a check in which `seconds` were worked against a goal of
/// `goal_seconds`.
pub open spec fn outcome_of(seconds: int, goal_seconds: int, weekly: bool) -> Outcome {
    Outcome {
        over: seconds - goal_seconds >= 0,
        delta_seconds: (seconds - goal_seconds) as i128,
        weekly,
    }
}

/// The title of the message for an outcome.
pub open spec fn title_of(over: bool, weekly: bool) -> Seq<char> {
    if !over {
        "You need to lock in!"@
    } else if weekly {
        "Good Job, don't forget to submit!"@
    } else {
        "Good Job!"@
    }
}

/// The tags of the message for an outcome.
pub open spec fn tags_of(over: bool) -> Seq<char> {
    if over {
        "tada"@
    } else {
        "warning"@
    }
}

/// The body of the message for an outcome; `delta` is written by magnitude.
pub open spec fn body_of(over: bool, weekly: bool, delta: int) -> Seq<char> {
    if weekly {
        if over {
            "You worked for "@ + hms_text(delta) + " more than your weekly goal was."@
        } else {
            "You're "@ + hms_text(delta) + " short of your weekly goal and you need to submit soon."@
        }
    } else {
        if over {
            "You worked for "@ + hms_text(delta) + " more than your goal was."@
        } else {
            "You worked for "@ + hms_text(delta) + " less than your goal was."@
        }
    }
}

/// The message that tells `username` how a goal check came out.
pub open spec fn goal_message_of(username: Seq<char>, outcome: Outcome) -> NotificationView {
    NotificationView {
        username,
        title: title_of(outcome.over, outcome.weekly),
        tags: Some(tags_of(outcome.over)),
        body: body_of(outcome.over, outcome.weekly, outcome.delta_seconds as int),
    }
}

/// The message that reminds `username` to choose a project.
pub open spec fn reminder_of(username: Seq<char>) -> NotificationView {
    NotificationView {
        username,
        title: "Set your project."@,
        tags: None,
        body: "You haven't set a project for this week."@,
    }
}

/// The address to which the messages for `username` are posted.
pub open spec fn endpoint_of(username: Seq<char>) -> Seq<char> {
    "https://ntfy.tim.hackclub.app/"@ + username
}

impl Outcome {
    /// Compares the seconds worked with the seconds asked for.
    pub fn of(seconds: i64, goal_seconds: i64, weekly: bool) -> (outcome: Outcome)
        ensures
            outcome == outcome_of(seconds as int, goal_seconds as int, weekly),
            outcome.delta_seconds == seconds - goal_seconds,
            outcome.over <==> seconds >= goal_seconds,
    {
        let delta: i128 = seconds as i128 - goal_seconds as i128;
        Outcome { over: delta >= 0, delta_seconds: delta, weekly }
    }

    /// The magnitude of the difference, which fits in 64 bits where the
    /// outcome compares two 64-bit counts.
    fn delta_magnitude(&self) -> (r: u64)
        requires
            -0x1_0000_0000_0000_0000 < self.delta_seconds < 0x1_0000_0000_0000_0000,
        ensures
            r == magnitude(self.delta_seconds as int),
    {
        if self.delta_seconds >= 0 {
            self.delta_seconds as u64
        } else {
            (-self.delta_seconds) as u64
        }
    }
}

/// Builds the message that tells `username` how a goal check came out.
pub fn goal_notification(username: &str, seconds: i64, goal_seconds: i64, weekly: bool) -> (n:
    Notification)
    ensures
        n@ == goal_message_of(username@, outcome_of(seconds as int, goal_seconds as int, weekly)),
{
    let outcome = Outcome::of(seconds, goal_seconds, weekly);
    let amount: String = magnitude_to_hms(outcome.delta_magnitude());
    assert(amount@ == hms_text(outcome.delta_seconds as int));
    let title: &'static str = if !outcome.over {
        "You need to lock in!"
    } else if weekly {
        "Good Job, don't forget to submit!"
    } else {
        "Good Job!"
    };
    let tags: &'static str = if outcome.over {
        "tada"
    } else {
        "warning"
    };
    let lead: &'static str = if weekly && !outcome.over {
        "You're "
    } else {
        "You worked for "
    };
    let tail: &'static str = if weekly {
        if outcome.over {
            " more than your weekly goal was."
        } else {
            " short of your weekly goal and you need to submit soon."
        }
    } else {
        if outcome.over {
            " more than your goal was."
        } else {
            " less than your goal was."
        }
    };
    let mut body: String = String::from_str(lead);
    body.append(amount.as_str());
    body.append(tail);
    Notification {
        username: username.to_owned(),
        title: String::from_str(title),
        tags: Some(String::from_str(tags)),
        body,
    }
}

/// Builds the message that reminds `username` to choose a project.
pub fn project_reminder(username: &str) -> (n: Notification)
    ensures
        n@ == reminder_of(username@),
{
    Notification {
        username: username.to_owned(),
        title: String::from_str("Set your project."),
        tags: None,
        body: String::from_str("You haven't set a project for this week."),
    }
}

/// The address to which the messages for `username` are posted.
pub fn endpoint(username: &str) -> (url: String)
    ensures
        url@ == endpoint_of(username@),
{
    let mut url: String = String::from_str("https://ntfy.tim.hackclub.app/");
    url.append(username);
    url
}

} // verus!
