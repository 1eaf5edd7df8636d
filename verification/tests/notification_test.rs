use reviewist::notification::{Notification, Repository, ReviewRequest, Subject};

fn notification(reason: &str, kind: &str) -> Notification {
    Notification {
        reason: reason.to_string(),
        subject: Subject {
            _type: kind.to_string(),
            title: "Some important PR".to_string(),
            url: "http://example.com/pulls/1".to_string(),
        },
        repository: Repository { name: "reviewist".to_string() },
    }
}

#[test]
fn review_request_for_pull_request_is_kept() {
    let request = ReviewRequest::from_notification(notification("review_requested", "PullRequest"))
        .expect("a review request");
    assert_eq!(request.pr_title, "Some important PR");
    assert_eq!(request.repository, "reviewist");
    assert_eq!(request.url, "http://example.com/pulls/1");
}

#[test]
fn review_request_for_issue_is_dropped() {
    assert!(ReviewRequest::from_notification(notification("review_requested", "Issue")).is_none());
}

#[test]
fn other_reason_is_dropped() {
    assert!(ReviewRequest::from_notification(notification("mention", "PullRequest")).is_none());
}

#[test]
fn filter_rule_holds_for_every_combination() {
    let reasons = ["review_requested", "mention", "", "Review_Requested", "review_requested "];
    let kinds = ["PullRequest", "Issue", "", "pullrequest", "Commit"];
    for reason in reasons.iter() {
        for kind in kinds.iter() {
            let kept = ReviewRequest::from_notification(notification(reason, kind)).is_some();
            assert_eq!(kept, *reason == "review_requested" && *kind == "PullRequest");
        }
    }
}
