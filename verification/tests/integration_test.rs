use reviewist::client::GithubClient;
use reviewist::notifications_polling::{CycleDriver, DriverAction};
use reviewist::notifications_response::HttpResponse;
use reviewist::process_pull_request;
use reviewist::resolver::{get_pr_for_review_request, notifications_to_pull_requests, ResolverStep};
use reviewist::review_handler::{new as new_handler, ReviewHandler};
use reviewist::todoist_client::NewTask;

const ADDRESS: &str = "127.0.0.1:4000";

/// The feed a stand-in server serves: one review request per counted pull request.
fn notifications(entries: &[(&str, usize)]) -> HttpResponse {
    let items: Vec<String> = entries
        .iter()
        .map(|(kind, i)| {
            format!(
                r#"{{"reason": "review_requested", "subject": {{"title": "Some important PR", "url": "http://{}/github/pull_requests/{}", "type": "{}"}}, "repository": {{"name": "reviewist"}}}}"#,
                ADDRESS, i, kind
            )
        })
        .collect();
    HttpResponse {
        status: 200,
        link: vec![],
        last_modified: vec![],
        poll_interval: vec![b"1".to_vec()],
        body: format!("[{}]", items.join(",")).into_bytes(),
    }
}

fn get_pull_request(url: &str) -> (u16, Vec<u8>) {
    let id = url.rsplit('/').next().expect("an id");
    let body = format!(
        r#"{{"number": {}, "title": "Some important PR", "html_url": "https://example.com",
            "created_at": "2018-01-01T00:00:00Z", "merged_at": null, "closed_at": null,
            "base": {{"repo": {{"name": "reviewist"}}}}}}"#,
        id
    );
    (200, body.into_bytes())
}

/// Runs one cycle against the stand-in feed and returns the tasks that would be posted.
fn run_cycle(driver: &mut CycleDriver, handler: &mut ReviewHandler, feed: &HttpResponse) -> Vec<NewTask> {
    let mut tasks = Vec::new();
    let mut action = driver.begin();
    loop {
        action = match action {
            DriverAction::Sleep(_) => driver.waited(),
            DriverAction::Fetch { .. } => driver.response(feed),
            DriverAction::Yield { requests, .. } => {
                let mut resolver = notifications_to_pull_requests(requests);
                let mut under_way = Vec::new();
                loop {
                    match resolver.poll() {
                        ResolverStep::Start(request) => under_way.push(request.url),
                        ResolverStep::Wait => {
                            let (status, body) = get_pull_request(&under_way.remove(0));
                            let outcome = get_pr_for_review_request(status, &body);
                            if let Some(pr) = resolver.complete(outcome) {
                                if let Some(task) = process_pull_request(handler, pr) {
                                    tasks.push(task);
                                }
                            }
                        }
                        ResolverStep::Finished => break,
                    }
                }
                driver.drained();
                return tasks;
            }
            other => panic!("Unexpected response: {:?}", other),
        };
    }
}

fn run_for_two_cycles(entries: &[(&str, usize)]) -> usize {
    let client = GithubClient::new(&format!("http://{}/github/", ADDRESS), String::new()).expect("a client");
    let mut driver = client.into_pull_request_stream();
    let mut handler = new_handler();
    let feed = notifications(entries);
    let mut task_count = run_cycle(&mut driver, &mut handler, &feed).len();
    task_count += run_cycle(&mut driver, &mut handler, &feed).len();
    task_count
}

#[test]
fn test_one_pr() {
    let task_count = run_for_two_cycles(&[("PullRequest", 0)]);
    assert_eq!(task_count, 1);
}

#[test]
fn test_multiple_prs() {
    const PR_COUNT: usize = 10;
    let entries: Vec<(&str, usize)> = (0..PR_COUNT).map(|i| ("PullRequest", i)).collect();
    let task_count = run_for_two_cycles(&entries);
    assert_eq!(task_count, PR_COUNT);
}

#[test]
fn one_pull_request_and_one_issue_give_one_task() {
    let client = GithubClient::new(&format!("http://{}/github/", ADDRESS), String::new()).expect("a client");
    let mut driver = client.into_pull_request_stream();
    let mut handler = new_handler();
    let feed = notifications(&[("PullRequest", 3), ("Issue", 4)]);
    let tasks = run_cycle(&mut driver, &mut handler, &feed);
    assert_eq!(tasks.len(), 1);
    assert_eq!(tasks[0].content, "https://example.com (reviewist#3: Some important PR)");
    assert_eq!(handler.records.len(), 1);
    assert_eq!(handler.records[0].pr_number, "3");
}

#[test]
fn same_item_in_two_cycles_gives_one_task() {
    let client = GithubClient::new(&format!("http://{}/github/", ADDRESS), String::new()).expect("a client");
    let mut driver = client.into_pull_request_stream();
    let mut handler = new_handler();
    let feed = notifications(&[("PullRequest", 7)]);
    assert_eq!(run_cycle(&mut driver, &mut handler, &feed).len(), 1);
    assert_eq!(driver.batch_number, 1);
    assert_eq!(run_cycle(&mut driver, &mut handler, &feed).len(), 0);
    assert_eq!(driver.batch_number, 2);
    assert_eq!(handler.records.len(), 1);
}

#[test]
fn many_pull_requests_are_resolved_in_feed_order_batches() {
    let entries: Vec<(&str, usize)> = (0..25).map(|i| ("PullRequest", i)).collect();
    assert_eq!(run_for_two_cycles(&entries), 25);
}
