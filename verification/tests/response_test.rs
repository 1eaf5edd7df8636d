use reviewist::error::PollError;
use reviewist::headers::LinkEntry;
use reviewist::notifications_response::{
    from_http, next_page_url, not_modified_response, parse_body, parse_last_modified,
    parse_poll_interval, parse_response, HttpResponse, NotificationsResponse,
};

fn item(reason: &str, kind: &str, n: usize) -> String {
    format!(
        r#"{{"reason": "{}", "subject": {{"title": "PR {}", "url": "http://h/pulls/{}", "type": "{}"}}, "repository": {{"name": "reviewist"}}}}"#,
        reason, n, n, kind
    )
}

fn lines(values: &[&str]) -> Vec<Vec<u8>> {
    values.iter().map(|v| v.as_bytes().to_vec()).collect()
}

fn response(status: u16, body: &str) -> HttpResponse {
    HttpResponse {
        status,
        link: vec![],
        last_modified: vec![],
        poll_interval: vec![],
        body: body.as_bytes().to_vec(),
    }
}

#[test]
fn fresh_page_carries_items_and_metadata() {
    let mut r = response(200, &format!("[{}, {}]", item("review_requested", "PullRequest", 1), item("mention", "Issue", 2)));
    r.link = lines(&["<http://h/notifications?page=2>; rel=\"next\", <http://h/notifications?page=5>; rel=\"last\""]);
    r.last_modified = lines(&["Sat, 29 Oct 1994 19:43:31 GMT"]);
    r.poll_interval = lines(&["60"]);
    let page = from_http(&r).expect("a page");
    assert_eq!(page.notifications.len(), 2);
    assert_eq!(page.notifications[0].subject.title, "PR 1");
    assert_eq!(page.notifications[1].reason, "mention");
    assert_eq!(page.next_page.as_deref(), Some("http://h/notifications?page=2"));
    assert_eq!(page.last_modified.as_deref(), Some("Sat, 29 Oct 1994 19:43:31 GMT"));
    assert_eq!(page.poll_interval, Some(60));
}

#[test]
fn last_page_has_no_continuation() {
    let mut r = response(200, "[]");
    r.link = lines(&["<http://h/notifications?page=1>; rel=\"prev\", <http://h/notifications?page=1>; rel=\"first\""]);
    let page = from_http(&r).expect("a page");
    assert!(page.notifications.is_empty());
    assert_eq!(page.next_page, None);
    assert_eq!(page.last_modified, None);
    assert_eq!(page.poll_interval, None);
}

#[test]
fn malformed_elements_are_dropped_and_the_rest_kept() {
    let body = format!(
        "[{}, 17, {{\"reason\": \"x\"}}, {}, null]",
        item("review_requested", "PullRequest", 1),
        item("review_requested", "PullRequest", 2)
    );
    let page = from_http(&response(200, &body)).expect("a page");
    assert_eq!(page.notifications.len(), 2);
    assert_eq!(page.notifications[0].subject.url, "http://h/pulls/1");
    assert_eq!(page.notifications[1].subject.url, "http://h/pulls/2");
}

#[test]
fn body_that_is_no_array_is_a_parse_error() {
    assert_eq!(from_http(&response(200, "{}")).err(), Some(PollError::Parse));
    assert_eq!(from_http(&response(200, "[1, 2")).err(), Some(PollError::Parse));
    assert_eq!(from_http(&response(200, "")).err(), Some(PollError::Parse));
    assert_eq!(parse_body(b"\"text\"").err(), Some(PollError::Parse));
    assert_eq!(parse_response(&response(200, "nonsense")).err(), Some(PollError::Parse));
}

#[test]
fn not_modified_has_no_items_but_keeps_the_wait() {
    let mut r = response(304, "");
    r.poll_interval = lines(&["120"]);
    r.last_modified = lines(&["Sat, 29 Oct 1994 19:43:31 GMT"]);
    r.link = lines(&["<http://h/notifications?page=2>; rel=\"next\""]);
    let page = from_http(&r).expect("a page");
    assert!(page.notifications.is_empty());
    assert_eq!(page.next_page, None);
    assert_eq!(page.last_modified, None);
    assert_eq!(page.poll_interval, Some(120));
    let same = not_modified_response(&r);
    assert_eq!(same.poll_interval, Some(120));
    assert!(same.notifications.is_empty());
}

#[test]
fn other_statuses_are_unrecognized() {
    for status in [100u16, 201, 204, 301, 400, 401, 404, 500, 503] {
        assert_eq!(
            from_http(&response(status, "[]")).err(),
            Some(PollError::UnrecognizedStatus(status))
        );
    }
}

#[test]
fn from_response_is_from_http() {
    let page = NotificationsResponse::from_response(&response(200, &format!("[{}]", item("a", "b", 1))))
        .expect("a page");
    assert_eq!(page.notifications.len(), 1);
    assert_eq!(
        NotificationsResponse::from_response(&response(418, "")).err(),
        Some(PollError::UnrecognizedStatus(418))
    );
}

#[test]
fn poll_interval_needs_exactly_one_numeric_line() {
    let mut r = response(200, "[]");
    assert_eq!(parse_poll_interval(&r), None);
    r.poll_interval = lines(&[" 60 "]);
    assert_eq!(parse_poll_interval(&r), Some(60));
    r.poll_interval = lines(&["sixty"]);
    assert_eq!(parse_poll_interval(&r), None);
    r.poll_interval = lines(&["-1"]);
    assert_eq!(parse_poll_interval(&r), None);
    r.poll_interval = lines(&["1", "2"]);
    assert_eq!(parse_poll_interval(&r), None);
}

#[test]
fn last_modified_is_given_in_the_preferred_form() {
    let mut r = response(200, "[]");
    assert_eq!(parse_last_modified(&r), None);
    r.last_modified = lines(&["Sunday, 06-Nov-94 08:49:37 GMT"]);
    assert_eq!(parse_last_modified(&r).as_deref(), Some("Sun, 06 Nov 1994 08:49:37 GMT"));
    r.last_modified = lines(&["last week"]);
    assert_eq!(parse_last_modified(&r), None);
}

#[test]
fn links_over_several_lines_are_joined() {
    let mut r = response(200, "[]");
    r.link = lines(&["<http://h/a>; rel=\"prev\"", "<http://h/b>; rel=\"next\""]);
    assert_eq!(from_http(&r).expect("a page").next_page.as_deref(), Some("http://h/b"));
}

#[test]
fn unparsable_link_means_no_continuation() {
    let mut r = response(200, "[]");
    r.link = lines(&["http://h/b; rel=next"]);
    assert_eq!(from_http(&r).expect("a page").next_page, None);
}

#[test]
fn next_page_is_the_first_value_with_the_next_relation() {
    let entry = |link: &str, rel: Option<Vec<&str>>| LinkEntry {
        link: link.to_string(),
        rel: rel.map(|names| names.into_iter().map(|n| n.to_string()).collect()),
    };
    assert_eq!(next_page_url(&vec![]), None);
    assert_eq!(next_page_url(&vec![entry("a", None), entry("b", Some(vec!["prev"]))]), None);
    assert_eq!(
        next_page_url(&vec![
            entry("a", Some(vec!["last"])),
            entry("b", Some(vec!["prev", "next"])),
            entry("c", Some(vec!["next"])),
        ])
        .as_deref(),
        Some("b")
    );
    assert_eq!(next_page_url(&vec![entry("a", Some(vec![])), entry("b", Some(vec!["NEXT"]))]), None);
}
