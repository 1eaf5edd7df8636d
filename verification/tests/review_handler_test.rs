use reviewist::error::PollError;
use reviewist::notification::PullRequest;
use reviewist::review_handler::{
    forwarded, insert_review_request, new as new_handler, recording_result, GateAction,
    NewReviewRequest, RecordOutcome,
};

fn pull_request(number: i64, repo: &str, title: &str) -> PullRequest {
    PullRequest::new(
        number,
        title.to_string(),
        format!("https://example.com/{}/{}", repo, number),
        1514764800,
        None,
        None,
        repo.to_string(),
    )
}

#[test]
fn record_is_drawn_from_the_pull_request() {
    let record = NewReviewRequest::for_pull_request(&pull_request(42, "reviewist", "Title"));
    assert_eq!(record.project, "reviewist");
    assert_eq!(record.pr_number, "42");
    assert_eq!(record.pr_url, "https://example.com/reviewist/42");
    assert_eq!(record.pr_title, "Title");
}

#[test]
fn number_is_recorded_in_decimal() {
    for (number, text) in [(0i64, "0"), (7, "7"), (10, "10"), (-3, "-3"), (i64::MAX, "9223372036854775807"), (i64::MIN, "-9223372036854775808")] {
        assert_eq!(NewReviewRequest::for_pull_request(&pull_request(number, "r", "t")).pr_number, text);
    }
}

#[test]
fn same_key_is_recorded_once() {
    let mut handler = new_handler();
    assert!(handler.record_in_task(pull_request(1, "reviewist", "first")).is_some());
    assert!(handler.record_in_task(pull_request(1, "reviewist", "renamed")).is_none());
    assert!(handler.record_in_task(pull_request(1, "reviewist", "first")).is_none());
    assert_eq!(handler.records.len(), 1);
    assert_eq!(handler.records[0].pr_title, "first");
    assert!(handler.contains_key("reviewist", "1"));
}

#[test]
fn different_keys_are_recorded_side_by_side() {
    let mut handler = new_handler();
    assert!(handler.record_in_task(pull_request(1, "reviewist", "a")).is_some());
    assert!(handler.record_in_task(pull_request(2, "reviewist", "a")).is_some());
    assert!(handler.record_in_task(pull_request(1, "other", "a")).is_some());
    assert!(handler.record_in_task(pull_request(2, "reviewist", "a")).is_none());
    assert_eq!(handler.records.len(), 3);
    assert!(!handler.contains_key("other", "2"));
    assert!(!handler.contains_key("1", "reviewist"));
}

#[test]
fn check_and_insert_reports_whether_it_inserted() {
    let mut handler = new_handler();
    let record = || NewReviewRequest::for_pull_request(&pull_request(5, "reviewist", "t"));
    assert!(handler.check_and_insert(record()));
    assert!(!handler.check_and_insert(record()));
    assert_eq!(handler.records.len(), 1);
}

#[test]
fn record_review_request_returns_the_pull_request_once() {
    let mut handler = new_handler();
    let first = handler.record_review_request(pull_request(8, "reviewist", "t")).expect("no failure");
    assert_eq!(first.expect("recorded").number, 8);
    let second = handler.record_review_request(pull_request(8, "reviewist", "t")).expect("no failure");
    assert!(second.is_none());
}

#[test]
fn existence_decides_between_suppressing_and_inserting() {
    assert_eq!(insert_review_request(true), GateAction::Suppress);
    assert_eq!(insert_review_request(false), GateAction::Insert);
}

#[test]
fn outcome_of_recording_decides_what_is_forwarded() {
    let pr = || pull_request(1, "reviewist", "t");
    let inserted = recording_result(pr(), RecordOutcome::Inserted);
    assert_eq!(inserted.as_ref().map(|o| o.as_ref().map(|p| p.number)), Ok(Some(1)));
    assert!(forwarded(inserted).is_some());
    let known = recording_result(pr(), RecordOutcome::AlreadyRecorded);
    assert!(matches!(known, Ok(None)));
    assert!(forwarded(known).is_none());
    let storage = recording_result(pr(), RecordOutcome::StorageFailed);
    assert_eq!(storage.as_ref().err(), Some(&PollError::Storage));
    assert!(forwarded(storage).is_none());
    let scheduling = recording_result(pr(), RecordOutcome::NotScheduled);
    assert_eq!(scheduling.as_ref().err(), Some(&PollError::Scheduling));
    assert!(forwarded(scheduling).is_none());
}
