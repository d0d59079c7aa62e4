use siege_reminder::datatypes::Project;
use siege_reminder::worktime::{
    fetch_seconds, get_project, is_success, parse_projects, rank_projects, read_stats, seconds_for,
    stats_url, stats_url_from, ProjectStat, WorkTimeError,
};

const MONDAY: i64 = 1_704_067_200;

fn document(text: &str) -> serde_json::Value {
    serde_json::from_str(text).unwrap()
}

fn stat(name: Option<&str>, text: Option<&str>, total_seconds: Option<i64>) -> ProjectStat {
    ProjectStat {
        name: name.map(|n| n.to_string()),
        text: text.map(|t| t.to_string()),
        total_seconds,
    }
}

fn project(name: &str, time: &str) -> Project {
    Project { name: name.to_string(), time: time.to_string() }
}

const ANSWER: &str = r#"{"data":{"username":"alice","projects":[
    {"name":"siege","total_seconds":7200,"text":"2 hrs","percent":66.6},
    {"name":"Siege","total_seconds":60,"text":"1 min"},
    {"name":"other","total_seconds":3540,"text":"59 mins"}]}}"#;

#[test]
fn stats_url_writes_the_start_as_rfc3339() {
    assert_eq!(
        stats_url("alice", MONDAY).unwrap(),
        "https://hackatime.hackclub.com/api/v1/users/alice/stats?features=projects&start_date=2024-01-01T00:00:00+00:00"
    );
    assert_eq!(
        stats_url("bob", MONDAY + 18 * 3600 + 5).unwrap(),
        "https://hackatime.hackclub.com/api/v1/users/bob/stats?features=projects&start_date=2024-01-01T18:00:05+00:00"
    );
    assert_eq!(
        stats_url("", 0).unwrap(),
        "https://hackatime.hackclub.com/api/v1/users//stats?features=projects&start_date=1970-01-01T00:00:00+00:00"
    );
}

#[test]
fn stats_url_from_a_written_start() {
    assert_eq!(
        stats_url_from("alice", "2024-01-01T00:00:00+00:00"),
        "https://hackatime.hackclub.com/api/v1/users/alice/stats?features=projects&start_date=2024-01-01T00:00:00+00:00"
    );
    assert_eq!(
        stats_url_from("", ""),
        "https://hackatime.hackclub.com/api/v1/users//stats?features=projects&start_date="
    );
}

#[test]
fn stats_url_of_an_instant_without_a_date_is_none() {
    assert_eq!(stats_url("alice", i64::MAX), None);
    assert_eq!(stats_url("alice", i64::MIN), None);
    assert!(stats_url("alice", 253_402_300_799).is_some());
    assert!(stats_url("alice", -1).is_some());
}

#[test]
fn success_is_from_200_to_299() {
    assert!(!is_success(199));
    assert!(is_success(200));
    assert!(is_success(204));
    assert!(is_success(299));
    assert!(!is_success(300));
    assert!(!is_success(404));
    assert!(!is_success(0));
}

#[test]
fn read_stats_reads_each_field_where_it_is_present() {
    let doc = document(
        r#"{"data":{"projects":[
            {"name":"a","text":"1 hr","total_seconds":3600},
            {"name":5,"total_seconds":"many"},
            {"text":"no name","total_seconds":1.5},
            {"name":"big","text":null,"total_seconds":18446744073709551615},
            "not an object"]}}"#,
    );
    assert_eq!(
        read_stats(&doc),
        Some(vec![
            stat(Some("a"), Some("1 hr"), Some(3600)),
            stat(None, None, None),
            stat(None, Some("no name"), None),
            stat(Some("big"), None, None),
            stat(None, None, None),
        ])
    );
}

#[test]
fn read_stats_of_a_document_without_a_project_list_is_none() {
    assert_eq!(read_stats(&document(r#"{}"#)), None);
    assert_eq!(read_stats(&document(r#"{"data":{}}"#)), None);
    assert_eq!(read_stats(&document(r#"{"data":{"projects":{}}}"#)), None);
    assert_eq!(read_stats(&document(r#"{"data":[{"projects":[]}]}"#)), None);
    assert_eq!(read_stats(&document(r#"[1,2]"#)), None);
    assert_eq!(read_stats(&document(r#"{"data":{"projects":[]}}"#)), Some(vec![]));
}

#[test]
fn get_project_finds_the_project_by_its_exact_name() {
    let doc = document(ANSWER);
    assert_eq!(get_project(&doc, "siege"), Some(7200));
    assert_eq!(get_project(&doc, "Siege"), Some(60));
    assert_eq!(get_project(&doc, "other"), Some(3540));
    assert_eq!(get_project(&doc, "SIEGE"), None);
    assert_eq!(get_project(&doc, ""), None);
}

#[test]
fn get_project_takes_the_first_of_two_with_the_same_name() {
    let doc = document(
        r#"{"data":{"projects":[{"name":"x","total_seconds":1},{"name":"x","total_seconds":2}]}}"#,
    );
    assert_eq!(get_project(&doc, "x"), Some(1));
}

#[test]
fn get_project_stops_at_an_entry_without_a_name() {
    let doc = document(
        r#"{"data":{"projects":[{"name":"a","total_seconds":1},{"total_seconds":2},{"name":"b","total_seconds":3}]}}"#,
    );
    assert_eq!(get_project(&doc, "a"), Some(1));
    assert_eq!(get_project(&doc, "b"), None);
}

#[test]
fn get_project_without_whole_seconds_is_none() {
    let doc = document(
        r#"{"data":{"projects":[{"name":"a","total_seconds":1.5},{"name":"b"},{"name":"c","total_seconds":-4}]}}"#,
    );
    assert_eq!(get_project(&doc, "a"), None);
    assert_eq!(get_project(&doc, "b"), None);
    assert_eq!(get_project(&doc, "c"), Some(-4));
}

#[test]
fn seconds_for_on_plain_entries() {
    let stats = vec![
        stat(Some("a"), None, Some(10)),
        stat(Some("b"), None, None),
        stat(None, None, Some(30)),
        stat(Some("d"), None, Some(40)),
    ];
    assert_eq!(seconds_for(&stats, "a"), Some(10));
    assert_eq!(seconds_for(&stats, "b"), None);
    assert_eq!(seconds_for(&stats, "d"), None);
    assert_eq!(seconds_for(&stats, "zzz"), None);
    assert_eq!(seconds_for(&vec![], "a"), None);
}

#[test]
fn fetch_seconds_gives_the_seconds_of_the_project() {
    assert_eq!(fetch_seconds(200, ANSWER.as_bytes(), "siege"), Ok(7200));
    assert_eq!(fetch_seconds(299, ANSWER.as_bytes(), "other"), Ok(3540));
}

#[test]
fn fetch_seconds_of_a_project_that_is_not_listed_is_zero() {
    assert_eq!(fetch_seconds(200, ANSWER.as_bytes(), "absent"), Ok(0));
    assert_eq!(fetch_seconds(200, br#"{"data":{"projects":[]}}"#, "siege"), Ok(0));
    assert_eq!(fetch_seconds(200, br#"{}"#, "siege"), Ok(0));
    assert_eq!(fetch_seconds(200, br#"null"#, "siege"), Ok(0));
}

#[test]
fn fetch_seconds_of_an_unknown_user_is_not_found() {
    assert_eq!(fetch_seconds(404, ANSWER.as_bytes(), "siege"), Err(WorkTimeError::NotFound));
    assert_eq!(fetch_seconds(404, b"", "siege"), Err(WorkTimeError::NotFound));
}

#[test]
fn fetch_seconds_of_another_status_is_transient() {
    assert_eq!(fetch_seconds(500, ANSWER.as_bytes(), "siege"), Err(WorkTimeError::Transient));
    assert_eq!(fetch_seconds(301, ANSWER.as_bytes(), "siege"), Err(WorkTimeError::Transient));
    assert_eq!(fetch_seconds(199, ANSWER.as_bytes(), "siege"), Err(WorkTimeError::Transient));
    assert_eq!(fetch_seconds(429, ANSWER.as_bytes(), "siege"), Err(WorkTimeError::Transient));
}

#[test]
fn fetch_seconds_of_a_body_that_is_not_json_is_transient() {
    assert_eq!(fetch_seconds(200, b"", "siege"), Err(WorkTimeError::Transient));
    assert_eq!(fetch_seconds(200, b"<html>", "siege"), Err(WorkTimeError::Transient));
    assert_eq!(fetch_seconds(200, br#"{"data":"#, "siege"), Err(WorkTimeError::Transient));
    assert_eq!(fetch_seconds(200, br#"{} {}"#, "siege"), Err(WorkTimeError::Transient));
    assert_eq!(fetch_seconds(200, &[0xff, 0xfe], "siege"), Err(WorkTimeError::Transient));
}

#[test]
fn parse_projects_puts_most_seconds_first() {
    let doc = document(ANSWER);
    assert_eq!(
        parse_projects(&doc),
        Some(vec![project("siege", "2 hrs"), project("other", "59 mins"), project("Siege", "1 min")])
    );
}

#[test]
fn parse_projects_puts_the_later_of_two_equal_ones_first() {
    let doc = document(
        r#"{"data":{"projects":[
            {"name":"a","text":"ta","total_seconds":5},
            {"name":"b","text":"tb","total_seconds":9},
            {"name":"c","text":"tc","total_seconds":5},
            {"name":"d","text":"td","total_seconds":5},
            {"name":"e","text":"te","total_seconds":-1}]}}"#,
    );
    assert_eq!(
        parse_projects(&doc),
        Some(vec![
            project("b", "tb"),
            project("d", "td"),
            project("c", "tc"),
            project("a", "ta"),
            project("e", "te"),
        ])
    );
}

#[test]
fn parse_projects_orders_as_a_stable_sort_reversed() {
    let seconds = [3, 1, 4, 1, 5, 9, 2, 6, 5, 3, 5, 8, 9, 7, 9, 3, 2, 3, 8, 4];
    let stats: Vec<ProjectStat> = seconds
        .iter()
        .enumerate()
        .map(|(i, s)| stat(Some(&format!("p{}", i)), Some(&format!("t{}", i)), Some(*s)))
        .collect();
    let mut expected: Vec<(usize, i64)> = seconds.iter().cloned().enumerate().collect();
    expected.sort_by_key(|p| p.1);
    expected.reverse();
    let expected: Vec<Project> =
        expected.iter().map(|p| project(&format!("p{}", p.0), &format!("t{}", p.0))).collect();
    assert_eq!(rank_projects(&stats), Some(expected));
}

#[test]
fn parse_projects_of_an_incomplete_entry_is_none() {
    assert_eq!(
        parse_projects(&document(r#"{"data":{"projects":[{"name":"a","total_seconds":5}]}}"#)),
        None
    );
    assert_eq!(
        parse_projects(&document(r#"{"data":{"projects":[{"text":"a","total_seconds":5}]}}"#)),
        None
    );
    assert_eq!(
        parse_projects(&document(r#"{"data":{"projects":[{"name":"a","text":"b"}]}}"#)),
        None
    );
    assert_eq!(
        parse_projects(&document(
            r#"{"data":{"projects":[{"name":"a","text":"b","total_seconds":1},{"name":"c","text":"d","total_seconds":2.5}]}}"#
        )),
        None
    );
    assert_eq!(parse_projects(&document(r#"{"data":{}}"#)), None);
}

#[test]
fn parse_projects_of_an_empty_list_is_empty() {
    assert_eq!(parse_projects(&document(r#"{"data":{"projects":[]}}"#)), Some(vec![]));
    assert_eq!(rank_projects(&vec![]), Some(vec![]));
}
