//! The query path of the settings page: the projects of a user as the
//! time-keeping service lists them, and the user's record from the store.

use vstd::prelude::*;
use vstd::string::*;
use crate::clock::{minute_instant, minute_instant_of};
use crate::datatypes::{project_views, Data, DataView, Project};
use crate::json::{parse, parsed_json, Json};
use crate::store::{first_record_of, place_of, UserRecord, UserRecordView, UserStore};
use crate::worktime::{
    complete, is_ranking, is_success, is_success_status, parse_projects, ranked, stats_of,
    stats_request_of, stats_url, text_view, STATUS_NOT_FOUND,
};

verus! {

/// Why the settings page could not be given its data.
#[derive(Clone, Debug, PartialEq, Eq)]
pub enum QueryError {
    /// The request to the time-keeping service failed on the way; the text
    /// says how.
    Transport(String),
    /// The service does not know the user.
    UsernameNotFound,
    /// The service answered with this status, which is not one of success.
    Status(u16),
    /// The answer was not JSON.
    Deserialize,
    /// The answer was JSON without a complete project list.
    Parse,
    /// The store failed.
    Database,
}

/// The week-minute from which the project picker counts the work: four hours
/// into Monday.
pub const PICKER_WINDOW_MINUTE: i64 = 240;

/// The reason phrase that the `http` crate, as `reqwest` hands it on, has
/// for the status `code`; `None` for a number that is no status and for a
/// status without a phrase.
pub uninterp spec fn reason_phrase(code: u16) -> Option<Seq<char>>;

/// `reqwest::StatusCode::from_u16` followed by `StatusCode::canonical_reason`:
/// the standard reason phrase of a status. It depends on the number alone;
/// [`reason_phrase`] names it.
#[verifier::external_body]
pub(crate) fn canonical_reason(code: u16) -> (r: Option<String>)
    ensures
        match r {
            Some(phrase) => reason_phrase(code) == Some(phrase@),
            None => reason_phrase(code) is None,
        },
{
    match reqwest::StatusCode::from_u16(code) {
        Ok(status) => match status.canonical_reason() {
            Some(phrase) => Some(phrase.to_string()),
            None => None,
        },
        Err(_) => None,
    }
}

/// The text of an error, as the page shows it.
pub open spec fn message_of(error: QueryError) -> Seq<char> {
    match error {
        QueryError::Transport(text) => text@,
        QueryError::UsernameNotFound => "Username not found"@,
        QueryError::Status(code) => match reason_phrase(code) {
            Some(phrase) => phrase,
            None => "Unknown error"@,
        },
        QueryError::Deserialize => "Failed to deserialize response data"@,
        QueryError::Parse => "Failed to parse response data"@,
        QueryError::Database => "Database error"@,
    }
}

/// The text of a status that is not one of success, given its reason phrase:
/// the phrase, or "Unknown error" where there is none.
pub fn status_message(phrase: Option<String>) -> (text: String)
    ensures
        text@ == match phrase {
            Some(p) => p@,
            None => "Unknown error"@,
        },
{
    match phrase {
        Some(p) => p,
        None => String::from_str("Unknown error"),
    }
}

impl QueryError {
    /// The text of the error, as the page shows it.
    pub fn message(&self) -> (text: String)
        ensures
            text@ == message_of(*self),
    {
        match self {
            QueryError::Transport(text) => text.clone(),
            QueryError::UsernameNotFound => String::from_str("Username not found"),
            QueryError::Status(code) => status_message(canonical_reason(*code)),
            QueryError::Deserialize => String::from_str("Failed to deserialize response data"),
            QueryError::Parse => String::from_str("Failed to parse response data"),
            QueryError::Database => String::from_str("Database error"),
        }
    }
}

/// The address at which the projects of `username` are asked for at the
/// instant `now`: the statistics from four hours into the Monday of the
/// week, or `None` where that instant cannot be written.
pub open spec fn projects_request_of(username: Seq<char>, now: int) -> Option<Seq<char>> {
    let start = minute_instant_of(now, PICKER_WINDOW_MINUTE as int);
    if i64::MIN <= start <= i64::MAX {
        stats_request_of(username, start as i64)
    } else {
        None
    }
}

/// Builds the address at which the projects of `username` are asked for at
/// the instant `now`. From the second week after the epoch to the year 9999
/// there always is one.
pub fn projects_url(username: &str, now: i64) -> (r: Option<String>)
    ensures
        text_view(r) == projects_request_of(username@, now as int),
        604_800 <= now < 253_402_000_000 ==> r is Some,
{
    match minute_instant(now, PICKER_WINDOW_MINUTE) {
        Some(start) => {
            proof {
                crate::time::lemma_week_minute_range(now as int);
            }
            stats_url(username, start)
        },
        None => None,
    }
}

/// Which error a document without a complete project list gives, and `None`
/// for a document that has one.
pub open spec fn listing_error_of(doc: Json) -> Option<QueryError> {
    match stats_of(doc) {
        Some(stats) => if forall|i: int| 0 <= i < stats.len() ==> complete(#[trigger] stats[i]) {
            None
        } else {
            Some(QueryError::Parse)
        },
        None => Some(QueryError::Parse),
    }
}

/// Which error an answer of the service gives, and `None` for an answer with
/// a complete project list: an unknown user for status 404, the status for
/// any other that is not one of success, and then what the body lacks.
pub open spec fn answer_error_of(status: u16, body: Seq<u8>) -> Option<QueryError> {
    if status == STATUS_NOT_FOUND {
        Some(QueryError::UsernameNotFound)
    } else if !is_success_status(status) {
        Some(QueryError::Status(status))
    } else {
        match parsed_json(body) {
            Some(doc) => listing_error_of(doc),
            None => Some(QueryError::Deserialize),
        }
    }
}

/// Reads from an answer of the service the projects for the picker, ranked
/// as [`is_ranking`] says.
pub fn projects_from_answer(status: u16, body: &[u8]) -> (r: Result<Vec<Project>, QueryError>)
    ensures
        match r {
            Ok(list) => answer_error_of(status, body@) is None && exists|order: Seq<int>|
                is_ranking(stats_of(parsed_json(body@)->0)->0, order) && #[trigger] ranked(
                    stats_of(parsed_json(body@)->0)->0,
                    order,
                ) == project_views(list@),
            Err(error) => answer_error_of(status, body@) == Some(error),
        },
{
    if status == STATUS_NOT_FOUND {
        return Err(QueryError::UsernameNotFound);
    }
    if !is_success(status) {
        return Err(QueryError::Status(status));
    }
    match parse(body) {
        Ok(doc) => match parse_projects(&doc) {
            Some(list) => Ok(list),
            None => Err(QueryError::Parse),
        },
        Err(_) => Err(QueryError::Deserialize),
    }
}

/// What the page is given for a user with these projects and this record.
pub open spec fn data_of(projects: Seq<Project>, record: UserRecordView) -> DataView {
    DataView {
        username: record.username,
        projects: project_views(projects),
        primary: record.project,
        settings: record.settings,
    }
}

/// Puts together what the page is given.
pub fn assemble(projects: Vec<Project>, record: UserRecord) -> (data: Data)
    ensures
        data@ == data_of(projects@, record@),
{
    Data {
        username: record.username,
        projects,
        primary: record.project,
        settings: record.settings,
    }
}

/// Answers the page's query for `username`, given what the time-keeping
/// service listed. Where the listing failed, its error is handed on and the
/// store is not touched. Otherwise the user's record is read, and created
/// with the initial schedule if the user is new.
pub fn query_data(store: &mut UserStore, username: &str, listing: Result<
    Vec<Project>,
    QueryError,
>) -> (r: Result<Data, QueryError>)
    requires
        old(store).wf(),
    ensures
        final(store).wf(),
        match listing {
            Err(error) => r == Err::<Data, QueryError>(error) && final(store)@ == old(store)@,
            Ok(projects) => r is Ok && match place_of(old(store)@, username@) {
                Some(i) => final(store)@ == old(store)@ && r->Ok_0@ == data_of(
                    projects@,
                    old(store)@[i],
                ),
                None => final(store)@ == old(store)@.push(first_record_of(username@)) && r->Ok_0@
                    == data_of(projects@, first_record_of(username@)),
            },
        },
{
    match listing {
        Err(error) => Err(error),
        Ok(projects) => {
            let record = store.get_or_create(username);
            Ok(assemble(projects, record))
        },
    }
}

} // verus!
