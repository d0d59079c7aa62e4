//! The work-time client: what is asked of the time-keeping service and
//! what is read from its answers.

use vstd::prelude::*;
use vstd::string::*;
use crate::clock::{rfc3339, rfc3339_text};
use crate::datatypes::{Project, ProjectView};
use crate::json::{items_of, integer_of, json_of, member, member_of, parse, parsed_json, text_of, Json};

verus! {

/// One entry of the project list in a statistics answer, with each of the
/// fields this library reads present or not.
#[derive(Clone, Debug, PartialEq, Eq)]
pub struct ProjectStat {
    /// The project's name, where the entry has one that is a string.
    pub name: Option<String>,
    /// The time spent, written out for display, where the entry has it as a string.
    pub text: Option<String>,
    /// The time spent in seconds, where the entry has it as an integer.
    pub total_seconds: Option<i64>,
}

/// The mathematical content of a [`ProjectStat`].
pub struct ProjectStatView {
    pub name: Option<Seq<char>>,
    pub text: Option<Seq<char>>,
    pub total_seconds: Option<i64>,
}

/// The content of an optional string.
pub open spec fn text_view(text: Option<String>) -> Option<Seq<char>> {
    match text {
        Some(t) => Some(t@),
        None => None,
    }
}

impl View for ProjectStat {
    type V = ProjectStatView;

    open spec fn view(&self) -> ProjectStatView {
        ProjectStatView {
            name: text_view(self.name),
            text: text_view(self.text),
            total_seconds: self.total_seconds,
        }
    }
}

/// The contents of a list of entries, in order.
pub open spec fn stat_views(stats: Seq<ProjectStat>) -> Seq<ProjectStatView> {
    Seq::new(stats.len(), |i: int| stats[i]@)
}

/// The string member `key` of `doc`, if it has one.
pub open spec fn text_member_of(doc: Json, key: Seq<char>) -> Option<Seq<char>> {
    match member_of(doc, key) {
        Some(found) => text_of(found),
        None => None,
    }
}

/// The integer member `key` of `doc`, if it has one that fits in `i64`.
pub open spec fn integer_member_of(doc: Json, key: Seq<char>) -> Option<i64> {
    match member_of(doc, key) {
        Some(found) => integer_of(found),
        None => None,
    }
}

/// What one item of the project list says: its members `name`, `text` and
/// `total_seconds`, each where it is present with the right kind of value.
pub open spec fn stat_of(item: Json) -> ProjectStatView {
    ProjectStatView {
        name: text_member_of(item, "name"@),
        text: text_member_of(item, "text"@),
        total_seconds: integer_member_of(item, "total_seconds"@),
    }
}

/// The project list of a statistics document: the items of the array at
/// `data.projects`, or `None` where the document has no array there.
pub open spec fn stats_of(doc: Json) -> Option<Seq<ProjectStatView>> {
    match member_of(doc, "data"@) {
        Some(data) => match member_of(data, "projects"@) {
            Some(projects) => match items_of(projects) {
                Some(items) => Some(Seq::new(items.len(), |i: int| stat_of(items[i]))),
                None => None,
            },
            None => None,
        },
        None => None,
    }
}

/// The content of an optional list of entries.
pub open spec fn optional_stat_views(stats: Option<Vec<ProjectStat>>) -> Option<
    Seq<ProjectStatView>,
> {
    match stats {
        Some(list) => Some(stat_views(list@)),
        None => None,
    }
}

/// Reads the string member `key` of `item`.
fn text_member(item: &serde_json::Value, key: &str) -> (r: Option<String>)
    ensures
        text_view(r) == text_member_of(json_of(*item), key@),
{
    match member(item, key) {
        Some(found) => match found.as_str() {
            Some(text) => Some(text.to_owned()),
            None => None,
        },
        None => None,
    }
}

/// Reads the integer member `key` of `item`.
fn integer_member(item: &serde_json::Value, key: &str) -> (r: Option<i64>)
    ensures
        r == integer_member_of(json_of(*item), key@),
{
    match member(item, key) {
        Some(found) => found.as_i64(),
        None => None,
    }
}

/// Reads one item of the project list.
fn read_stat(item: &serde_json::Value) -> (stat: ProjectStat)
    ensures
        stat@ == stat_of(json_of(*item)),
{
    ProjectStat {
        name: text_member(item, "name"),
        text: text_member(item, "text"),
        total_seconds: integer_member(item, "total_seconds"),
    }
}

/// Reads the project list of a statistics document.
pub fn read_stats(doc: &serde_json::Value) -> (stats: Option<Vec<ProjectStat>>)
    ensures
        optional_stat_views(stats) == stats_of(json_of(*doc)),
{
    let data = match member(doc, "data") {
        Some(d) => d,
        None => { return None; },
    };
    let projects = match member(data, "projects") {
        Some(p) => p,
        None => { return None; },
    };
    let items = match projects.as_array() {
        Some(a) => a,
        None => { return None; },
    };
    let ghost listed = items_of(json_of(*projects))->0;
    let mut stats: Vec<ProjectStat> = Vec::new();
    let mut i: usize = 0;
    while i < items.len()
        invariant
            i <= items.len(),
            listed == Seq::new(items@.len(), |k: int| json_of(items@[k])),
            stats@.len() == i,
            forall|k: int| 0 <= k < i ==> stats@[k]@ == stat_of(listed[k]),
        decreases items.len() - i,
    {
        let stat = read_stat(&items[i]);
        stats.push(stat);
        i += 1;
    }
    assert(stat_views(stats@) =~= Seq::new(listed.len(), |k: int| stat_of(listed[k])));
    Some(stats)
}

/// The seconds logged for `project` in a project list: those of the first
/// entry of that name. Entries are taken in order, and the search stops at the
/// first entry without a name; an entry of that name without a count of
/// seconds gives `None` as well.
pub open spec fn project_seconds(stats: Seq<ProjectStatView>, project: Seq<char>) -> Option<i64>
    decreases stats.len(),
{
    if stats.len() == 0 {
        None
    } else if stats[0].name is None {
        None
    } else if stats[0].name == Some(project) {
        stats[0].total_seconds
    } else {
        project_seconds(stats.drop_first(), project)
    }
}

/// Whether every entry before place `k` has a name other than `project`.
pub open spec fn others_before(stats: Seq<ProjectStatView>, project: Seq<char>, k: int) -> bool {
    forall|j: int| 0 <= j < k ==> (#[trigger] stats[j]).name is Some && stats[j].name != Some(project)
}

/// [`project_seconds`] is decided by the first entry that has no name or has
/// the name asked for: it is the seconds of that entry if it has the name,
/// and `None` if it has no name or if there is no such entry.
pub proof fn lemma_project_seconds_first_match(
    stats: Seq<ProjectStatView>,
    project: Seq<char>,
    k: int,
)
    requires
        0 <= k <= stats.len(),
        others_before(stats, project, k),
    ensures
        k == stats.len() ==> project_seconds(stats, project) is None,
        k < stats.len() && stats[k].name is None ==> project_seconds(stats, project) is None,
        k < stats.len() && stats[k].name == Some(project) ==> project_seconds(stats, project)
            == stats[k].total_seconds,
    decreases k,
{
    if k > 0 {
        let rest = stats.drop_first();
        assert(stats[0].name is Some && stats[0].name != Some(project));
        assert forall|j: int| 0 <= j < k - 1 implies (#[trigger] rest[j]).name is Some && rest[j].name
            != Some(project) by {
            assert(rest[j] == stats[j + 1]);
        }
        lemma_project_seconds_first_match(rest, project, k - 1);
        if k < stats.len() {
            assert(rest[k - 1] == stats[k]);
        }
    }
}

/// Looks `project` up in a project list; names are compared exactly.
pub fn seconds_for(stats: &Vec<ProjectStat>, project: &str) -> (r: Option<i64>)
    ensures
        r == project_seconds(stat_views(stats@), project@),
{
    let wanted: String = project.to_owned();
    let ghost views = stat_views(stats@);
    let mut i: usize = 0;
    while i < stats.len()
        invariant
            i <= stats.len(),
            views == stat_views(stats@),
            wanted@ == project@,
            others_before(views, project@, i as int),
        decreases stats.len() - i,
    {
        assert(views[i as int] == stats@[i as int]@);
        match &stats[i].name {
            None => {
                proof {
                    lemma_project_seconds_first_match(views, project@, i as int);
                }
                return None;
            },
            Some(name) => {
                if *name == wanted {
                    proof {
                        lemma_project_seconds_first_match(views, project@, i as int);
                    }
                    return stats[i].total_seconds;
                }
            },
        }
        i += 1;
    }
    proof {
        lemma_project_seconds_first_match(views, project@, i as int);
    }
    None
}

/// The seconds logged for `project` according to a statistics document:
/// [`project_seconds`] of its project list, and `None` where it has none.
pub open spec fn document_seconds(doc: Json, project: Seq<char>) -> Option<i64> {
    match stats_of(doc) {
        Some(stats) => project_seconds(stats, project),
        None => None,
    }
}

/// Reads from a statistics document the seconds logged for `project`.
pub fn get_project(data: &serde_json::Value, project: &str) -> (r: Option<i64>)
    ensures
        r == document_seconds(json_of(*data), project@),
{
    match read_stats(data) {
        Some(stats) => seconds_for(&stats, project),
        None => None,
    }
}

/// Whether an entry has all that the project picker shows and orders by: a
/// name, a display text and a count of seconds.
pub open spec fn complete(stat: ProjectStatView) -> bool {
    stat.name is Some && stat.text is Some && stat.total_seconds is Some
}

/// The seconds of the entry at place `i`.
pub open spec fn seconds_at(stats: Seq<ProjectStatView>, i: int) -> int {
    stats[i].total_seconds->0 as int
}

/// Whether the entry at place `a` is shown before the entry at place `b`: it
/// has more seconds, or the same and a later place in the list.
pub open spec fn outranks(stats: Seq<ProjectStatView>, a: int, b: int) -> bool {
    seconds_at(stats, a) > seconds_at(stats, b) || (seconds_at(stats, a) == seconds_at(stats, b)
        && a > b)
}

/// Whether `place` stands somewhere in `order`.
pub open spec fn holds_place(order: Seq<int>, place: int) -> bool {
    exists|k: int| 0 <= k < order.len() && #[trigger] order[k] == place
}

/// Whether `order` lists each of the first `count` places of `stats` once,
/// each before all that it outranks.
pub open spec fn ranks_first(stats: Seq<ProjectStatView>, order: Seq<int>, count: int) -> bool {
    &&& order.len() == count
    &&& forall|k: int| 0 <= k < order.len() ==> 0 <= #[trigger] order[k] < count
    &&& forall|i: int| 0 <= i < count ==> #[trigger] holds_place(order, i)
    &&& forall|k: int, l: int|
        0 <= k < l < order.len() ==> outranks(stats, #[trigger] order[k], #[trigger] order[l])
}

/// Whether `order` lists every place of `stats` once, each before all that it
/// outranks.
pub open spec fn is_ranking(stats: Seq<ProjectStatView>, order: Seq<int>) -> bool {
    ranks_first(stats, order, stats.len() as int)
}

/// How a complete entry is shown in the project picker.
pub open spec fn listed_as(stat: ProjectStatView) -> ProjectView {
    ProjectView { name: stat.name->0, time: stat.text->0 }
}

/// The entries of `stats` as the picker shows them, in the order `order`.
pub open spec fn ranked(stats: Seq<ProjectStatView>, order: Seq<int>) -> Seq<ProjectView> {
    Seq::new(order.len(), |k: int| listed_as(stats[order[k]]))
}

/// A project list has at most one ranking, so [`is_ranking`] fixes the order
/// in which the picker shows the projects.
pub proof fn lemma_ranking_unique(stats: Seq<ProjectStatView>, first: Seq<int>, second: Seq<int>)
    requires
        is_ranking(stats, first),
        is_ranking(stats, second),
    ensures
        first == second,
{
    assert forall|k: int| 0 <= k < first.len() implies first[k] == second[k] by {
        lemma_ranking_agrees(stats, first, second, k);
    }
    assert(first =~= second);
}

/// Two rankings of one list agree at every place up to `k`.
proof fn lemma_ranking_agrees(
    stats: Seq<ProjectStatView>,
    first: Seq<int>,
    second: Seq<int>,
    k: int,
)
    requires
        is_ranking(stats, first),
        is_ranking(stats, second),
        0 <= k < first.len(),
    ensures
        first[k] == second[k],
    decreases k,
{
    assert forall|j: int| 0 <= j < k implies first[j] == second[j] by {
        lemma_ranking_agrees(stats, first, second, j);
    }
    let x = first[k];
    let y = second[k];
    assert(holds_place(second, x));
    assert(holds_place(first, y));
    let m = choose|m: int| 0 <= m < second.len() && second[m] == x;
    let n = choose|n: int| 0 <= n < first.len() && first[n] == y;
    if m < k {
        assert(first[m] == x);
        assert(outranks(stats, first[m], first[k]));
    } else if n < k {
        assert(second[n] == y);
        assert(outranks(stats, second[n], second[k]));
    } else if m > k {
        assert(outranks(stats, second[k], second[m]));
        if n > k {
            assert(outranks(stats, first[k], first[n]));
        }
    }
}

/// The places held in `order`, as mathematical integers.
spec fn places(order: Seq<usize>) -> Seq<int> {
    Seq::new(order.len(), |k: int| order[k] as int)
}

/// Putting the next place where its seconds first stop being exceeded keeps
/// the order a ranking.
proof fn lemma_insert_keeps_ranking(
    stats: Seq<ProjectStatView>,
    order: Seq<int>,
    count: int,
    at: int,
)
    requires
        ranks_first(stats, order, count),
        0 <= at <= order.len(),
        forall|k: int|
            0 <= k < at ==> seconds_at(stats, #[trigger] order[k]) > seconds_at(stats, count),
        at < order.len() ==> seconds_at(stats, order[at]) <= seconds_at(stats, count),
    ensures
        ranks_first(stats, order.insert(at, count), count + 1),
{
    let grown = order.insert(at, count);
    assert forall|l: int| at <= l < order.len() implies seconds_at(stats, #[trigger] order[l])
        <= seconds_at(stats, count) by {
        if l > at {
            assert(outranks(stats, order[at], order[l]));
        }
    }
    assert forall|i: int| 0 <= i < count + 1 implies #[trigger] holds_place(grown, i) by {
        if i == count {
            assert(grown[at] == i);
        } else {
            assert(holds_place(order, i));
            let k = choose|k: int| 0 <= k < order.len() && order[k] == i;
            if k < at {
                assert(grown[k] == i);
            } else {
                assert(grown[k + 1] == i);
            }
        }
    }
    assert forall|k: int, l: int| 0 <= k < l < grown.len() implies outranks(
        stats,
        #[trigger] grown[k],
        #[trigger] grown[l],
    ) by {
        if k < at && l > at {
            assert(outranks(stats, order[k], order[l - 1]));
        } else if k < at && l < at {
            assert(outranks(stats, order[k], order[l]));
        } else if k > at {
            assert(outranks(stats, order[k - 1], order[l - 1]));
        } else if k == at {
            assert(grown[l] == order[l - 1]);
        } else {
            assert(l == at);
            assert(grown[k] == order[k]);
        }
    }
}

/// Whether every entry of the list is complete.
fn all_complete(stats: &Vec<ProjectStat>) -> (r: bool)
    ensures
        r <==> forall|i: int| 0 <= i < stats.len() ==> complete(#[trigger] stats@[i]@),
{
    let mut i: usize = 0;
    while i < stats.len()
        invariant
            i <= stats.len(),
            forall|k: int| 0 <= k < i ==> complete(#[trigger] stats@[k]@),
        decreases stats.len() - i,
    {
        let stat = &stats[i];
        if stat.name.is_none() || stat.text.is_none() || stat.total_seconds.is_none() {
            assert(!complete(stats@[i as int]@));
            return false;
        }
        i += 1;
    }
    true
}

/// The places of a list of complete entries in the order of their ranking.
fn rank_order(stats: &Vec<ProjectStat>) -> (order: Vec<usize>)
    requires
        forall|i: int| 0 <= i < stats.len() ==> complete(#[trigger] stats@[i]@),
    ensures
        is_ranking(stat_views(stats@), places(order@)),
{
    let ghost views = stat_views(stats@);
    let mut order: Vec<usize> = Vec::new();
    let mut i: usize = 0;
    assert(ranks_first(views, places(order@), 0));
    while i < stats.len()
        invariant
            i <= stats.len(),
            views == stat_views(stats@),
            forall|j: int| 0 <= j < stats.len() ==> complete(#[trigger] stats@[j]@),
            ranks_first(views, places(order@), i as int),
        decreases stats.len() - i,
    {
        assert(views[i as int] == stats@[i as int]@);
        assert(complete(stats@[i as int]@));
        let seconds: i64 = stats[i].total_seconds.unwrap();
        let ghost held = places(order@);
        let mut at: usize = 0;
        while at < order.len()
            invariant
                at <= order.len(),
                i < stats.len(),
                views == stat_views(stats@),
                held == places(order@),
                forall|j: int| 0 <= j < stats.len() ==> complete(#[trigger] stats@[j]@),
                ranks_first(views, held, i as int),
                seconds == seconds_at(views, i as int),
                forall|k: int| 0 <= k < at ==> seconds_at(views, #[trigger] held[k]) > seconds,
            ensures
                at <= order.len(),
                forall|k: int| 0 <= k < at ==> seconds_at(views, #[trigger] held[k]) > seconds,
                at < order.len() ==> seconds_at(views, held[at as int]) <= seconds,
            decreases order.len() - at,
        {
            assert(0 <= held[at as int] < i);
            let place: usize = order[at];
            assert(views[place as int] == stats@[place as int]@);
            assert(complete(stats@[place as int]@));
            if stats[place].total_seconds.unwrap() <= seconds {
                break;
            }
            at += 1;
        }
        proof {
            lemma_insert_keeps_ranking(views, held, i as int, at as int);
        }
        order.insert(at, i);
        assert(places(order@) =~= held.insert(at as int, i as int));
        i += 1;
    }
    order
}

/// The project list as the picker shows it: most seconds first, and of two
/// entries with the same seconds the later one first. `None` where an entry
/// lacks its name, its display text or its seconds.
pub fn rank_projects(stats: &Vec<ProjectStat>) -> (r: Option<Vec<Project>>)
    ensures
        r is Some <==> forall|i: int| 0 <= i < stats.len() ==> complete(#[trigger] stats@[i]@),
        r matches Some(list) ==> exists|order: Seq<int>|
            is_ranking(stat_views(stats@), order) && #[trigger] ranked(stat_views(stats@), order)
                == crate::datatypes::project_views(list@),
{
    if !all_complete(stats) {
        return None;
    }
    let order: Vec<usize> = rank_order(stats);
    let ghost views = stat_views(stats@);
    let ghost held = places(order@);
    let mut list: Vec<Project> = Vec::new();
    let mut k: usize = 0;
    while k < order.len()
        invariant
            k <= order.len(),
            views == stat_views(stats@),
            held == places(order@),
            is_ranking(views, held),
            forall|j: int| 0 <= j < stats.len() ==> complete(#[trigger] stats@[j]@),
            list@.len() == k,
            forall|j: int| 0 <= j < k ==> (#[trigger] list@[j])@ == listed_as(views[held[j]]),
        decreases order.len() - k,
    {
        assert(0 <= held[k as int] < stats.len());
        let place: usize = order[k];
        assert(views[place as int] == stats@[place as int]@);
        assert(complete(stats@[place as int]@));
        let stat = &stats[place];
        let name: String = match &stat.name {
            Some(n) => n.clone(),
            None => String::new(),
        };
        let time: String = match &stat.text {
            Some(t) => t.clone(),
            None => String::new(),
        };
        list.push(Project { name, time });
        k += 1;
    }
    assert(ranked(views, held) =~= crate::datatypes::project_views(list@));
    Some(list)
}

/// The projects that a statistics document lists, as the picker shows them:
/// `None` where the document has no project list or an entry of it is not
/// complete, and the ranked list otherwise.
pub fn parse_projects(data: &serde_json::Value) -> (r: Option<Vec<Project>>)
    ensures
        r is Some <==> (stats_of(json_of(*data)) matches Some(stats) && forall|i: int|
            0 <= i < stats.len() ==> complete(#[trigger] stats[i])),
        r matches Some(list) ==> exists|order: Seq<int>|
            is_ranking(stats_of(json_of(*data))->0, order) && #[trigger] ranked(
                stats_of(json_of(*data))->0,
                order,
            ) == crate::datatypes::project_views(list@),
{
    let stats: Vec<ProjectStat> = match read_stats(data) {
        Some(stats) => stats,
        None => { return None; },
    };
    let ghost views = stat_views(stats@);
    assert(stats_of(json_of(*data)) == Some(views));
    let r = rank_projects(&stats);
    proof {
        if r is Some {
            assert forall|i: int| 0 <= i < views.len() implies complete(#[trigger] views[i]) by {
                assert(complete(stats@[i]@));
            }
        } else {
            let i = choose|i: int| 0 <= i < stats.len() && !complete(#[trigger] stats@[i]@);
            assert(views[i] == stats@[i]@);
            assert(!complete(views[i]));
        }
        assert(stats_of(json_of(*data))->0 == views);
    }
    r
}

/// Why the seconds worked could not be had from the service.
#[derive(Clone, Copy, Debug, PartialEq, Eq, Structural)]
pub enum WorkTimeError {
    /// The service does not know the user.
    NotFound,
    /// The request failed on the way, the service answered with a status
    /// other than success, or the answer was not JSON. Nothing is tried
    /// again.
    Transient,
}

/// The status with which the service says that it does not know the user.
pub const STATUS_NOT_FOUND: u16 = 404;

/// Whether an HTTP status is one of success, from 200 to 299.
pub open spec fn is_success_status(status: u16) -> bool {
    200 <= status < 300
}

/// Whether an HTTP status is one of success, from 200 to 299.
pub fn is_success(status: u16) -> (r: bool)
    ensures
        r == is_success_status(status),
{
    200 <= status && status < 300
}

/// The address of the statistics of `username` from the instant written as
/// `start` on.
pub open spec fn stats_url_of(username: Seq<char>, start: Seq<char>) -> Seq<char> {
    "https://hackatime.hackclub.com/api/v1/users/"@ + username
        + "/stats?features=projects&start_date="@ + start
}

/// The address of the statistics of `username` from the instant `start` on,
/// or `None` where the instant has no RFC 3339 text.
pub open spec fn stats_request_of(username: Seq<char>, start: i64) -> Option<Seq<char>> {
    match rfc3339_text(start) {
        Some(text) => Some(stats_url_of(username, text)),
        None => None,
    }
}

/// Builds the address at which the service gives the statistics of
/// `username` from the instant written as `start` on.
pub fn stats_url_from(username: &str, start: &str) -> (url: String)
    ensures
        url@ == stats_url_of(username@, start@),
{
    let mut url: String = String::from_str("https://hackatime.hackclub.com/api/v1/users/");
    url.append(username);
    url.append("/stats?features=projects&start_date=");
    url.append(start);
    url
}

/// Builds the address at which the service gives the statistics of
/// `username` from the instant `start` on. Every instant from the epoch to the
/// end of the year 9999 has one.
pub fn stats_url(username: &str, start: i64) -> (r: Option<String>)
    ensures
        text_view(r) == stats_request_of(username@, start),
        0 <= start < 253_402_300_800 ==> r is Some,
{
    match rfc3339(start) {
        Some(text) => Some(stats_url_from(username, text.as_str())),
        None => None,
    }
}

/// What an answer of the service says about the seconds worked on `project`:
/// an unknown user for status 404, a failure for any other status that is not
/// one of success and for a body that is not JSON, and otherwise the seconds
/// that the document gives for the project, or 0 where it gives none.
pub open spec fn answer_seconds(status: u16, body: Seq<u8>, project: Seq<char>) -> Result<
    i64,
    WorkTimeError,
> {
    if status == STATUS_NOT_FOUND {
        Err(WorkTimeError::NotFound)
    } else if !is_success_status(status) {
        Err(WorkTimeError::Transient)
    } else {
        match parsed_json(body) {
            Some(doc) => Ok(
                match document_seconds(doc, project) {
                    Some(seconds) => seconds,
                    None => 0,
                },
            ),
            None => Err(WorkTimeError::Transient),
        }
    }
}

/// Reads from an answer of the service the seconds worked on `project`.
pub fn fetch_seconds(status: u16, body: &[u8], project: &str) -> (r: Result<i64, WorkTimeError>)
    ensures
        r == answer_seconds(status, body@, project@),
{
    if status == STATUS_NOT_FOUND {
        return Err(WorkTimeError::NotFound);
    }
    if !is_success(status) {
        return Err(WorkTimeError::Transient);
    }
    match parse(body) {
        Ok(doc) => match get_project(&doc, project) {
            Some(seconds) => Ok(seconds),
            None => Ok(0),
        },
        Err(_) => Err(WorkTimeError::Transient),
    }
}

} // verus!
