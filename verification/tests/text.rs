use gitdash::git::log::{get_split_index, Commit};
use gitdash::git::time::{time_since_commit, CommitDate, TimeSinceCommit};

#[test]
fn age_labels_pick_the_largest_fitting_unit() {
    assert_eq!(TimeSinceCommit(0).label(), "0m");
    assert_eq!(TimeSinceCommit(59).label(), "0m");
    assert_eq!(TimeSinceCommit(60).label(), "1m");
    assert_eq!(TimeSinceCommit(3599).label(), "59m");
    assert_eq!(TimeSinceCommit(3600).label(), "1hr");
    assert_eq!(TimeSinceCommit(86399).label(), "23hr");
    assert_eq!(TimeSinceCommit(86400).label(), "1d");
    assert_eq!(TimeSinceCommit(604800).label(), "1wk");
    assert_eq!(TimeSinceCommit(2419200).label(), "1mo");
    assert_eq!(TimeSinceCommit(31536000).label(), "1yr");
    assert_eq!(TimeSinceCommit(63072000).label(), "2yr");
    assert_eq!(TimeSinceCommit(1234567).label(), "2wk");
}

#[test]
fn date_labels_write_the_calendar_date() {
    let label = |ts: u64| CommitDate::new(ts, ts).date_label();
    assert_eq!(label(0), "Thu January 1 00:00:00 1970 UTC");
    assert_eq!(label(86399), "Thu January 1 23:59:59 1970 UTC");
    assert_eq!(label(951782400), "Tue February 29 00:00:00 2000 UTC");
    assert_eq!(label(1609459200), "Fri January 1 00:00:00 2021 UTC");
    assert_eq!(label(1654546036), "Mon June 6 20:07:16 2022 UTC");
}

#[test]
fn calendar_breaks_a_timestamp_into_its_parts() {
    let c = CommitDate::new(1654546036, 1654546036).calendar();
    assert_eq!(
        (c.year, c.month, c.day, c.weekday, c.hour, c.minute, c.second),
        (2022, 6, 6, 1, 20, 7, 16)
    );
}

#[test]
fn commit_age_clamps_at_zero() {
    assert_eq!(time_since_commit(100, 250).0, 150);
    assert_eq!(time_since_commit(250, 100).0, 0);
    let date = CommitDate::new(1000, 4600);
    assert_eq!(date.seconds, 1000);
    assert_eq!(date.time_since_commit().0, 3600);
}

#[test]
fn split_index_prefers_the_last_space_before_the_cut() {
    // A space right at character 70.
    let mut s = "a".repeat(70);
    s.push(' ');
    s.push_str("tail");
    assert_eq!(get_split_index(&s), 70);

    // The last space of the 55..70 stretch wins.
    let mut s = "a".repeat(60);
    s.push(' ');
    s.push_str(&"b".repeat(40));
    assert_eq!(get_split_index(&s), 60);

    // No space at all: the scan stops at 55.
    let s = "c".repeat(101);
    assert_eq!(get_split_index(&s), 55);
}

#[test]
fn long_summaries_are_cut_into_the_body() {
    let mut summary = "a".repeat(60);
    summary.push(' ');
    summary.push_str(&"b".repeat(40));
    let commit = Commit::from_parts(
        "0123456789abcdef0123456789abcdef01234567".to_string(),
        "author".to_string(),
        "author@example.com".to_string(),
        summary,
        vec!["existing line".to_string()],
        CommitDate::new(0, 0),
    );
    assert_eq!(commit.message_summary().chars().count(), 60);
    assert_eq!(commit.message_body().len(), 2);
    assert_eq!(commit.message_body()[0], "b".repeat(40));
    assert_eq!(commit.message_body()[1], "existing line");
}

#[test]
fn short_summaries_are_kept_whole() {
    let commit = Commit::from_parts(
        "0123456789abcdef0123456789abcdef01234567".to_string(),
        "author".to_string(),
        "author@example.com".to_string(),
        "short subject".to_string(),
        Vec::new(),
        CommitDate::new(0, 0),
    );
    assert_eq!(commit.message_summary(), "short subject");
    assert!(commit.message_body().is_empty());
    assert_eq!(commit.shorthand_id(), "01234567");
}
