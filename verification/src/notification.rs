//! The event model: raw feed items, review requests filtered from them, and
//! resolved pull requests.

use vstd::prelude::*;
use crate::json::{
    integer, is_null, json_integer, json_is_null, json_member, json_text, member, read_text, text,
    text_member,
};
use crate::text::same_text;
use crate::timestamp::{parse_timestamp, timestamp_seconds};

verus! {

/// The subject a notification is about.
#[derive(Debug, Clone)]
pub struct Subject {
    pub _type: String,
    pub title: String,
    pub url: String,
}

/// The repository a notification or pull request belongs to.
#[derive(Debug, Clone)]
pub struct Repository {
    pub name: String,
}

/// One item of the notification feed.
#[derive(Debug, Clone)]
pub struct Notification {
    pub reason: String,
    pub subject: Subject,
    pub repository: Repository,
}

/// A notification that asks for the review of a pull request.
#[derive(Debug, Clone)]
pub struct ReviewRequest {
    pub pr_title: String,
    pub repository: String,
    pub url: String,
}

/// What a notification says, as character sequences.
pub ghost struct NotificationModel {
    pub reason: Seq<char>,
    pub subject_type: Seq<char>,
    pub subject_title: Seq<char>,
    pub subject_url: Seq<char>,
    pub repository: Seq<char>,
}

/// What a review request says, as character sequences.
pub ghost struct ReviewRequestModel {
    pub pr_title: Seq<char>,
    pub repository: Seq<char>,
    pub url: Seq<char>,
}

impl DeepView for Notification {
    type V = NotificationModel;

    open spec fn deep_view(&self) -> NotificationModel {
        self@
    }
}

impl View for Notification {
    type V = NotificationModel;

    open spec fn view(&self) -> NotificationModel {
        NotificationModel {
            reason: self.reason@,
            subject_type: self.subject._type@,
            subject_title: self.subject.title@,
            subject_url: self.subject.url@,
            repository: self.repository.name@,
        }
    }
}

impl DeepView for ReviewRequest {
    type V = ReviewRequestModel;

    open spec fn deep_view(&self) -> ReviewRequestModel {
        self@
    }
}

impl View for ReviewRequest {
    type V = ReviewRequestModel;

    open spec fn view(&self) -> ReviewRequestModel {
        ReviewRequestModel { pr_title: self.pr_title@, repository: self.repository@, url: self.url@ }
    }
}

impl NotificationModel {
    /// A notification is a review request when its reason is
    /// `review_requested` and its subject is a pull request.
    pub open spec fn is_review_request(self) -> bool {
        self.reason == "review_requested"@ && self.subject_type == "PullRequest"@
    }

    /// The review request that a matching notification turns into.
    pub open spec fn review_request(self) -> ReviewRequestModel {
        ReviewRequestModel {
            pr_title: self.subject_title,
            repository: self.repository,
            url: self.subject_url,
        }
    }

    /// The filter rule as a partial function.
    pub open spec fn to_review_request(self) -> Option<ReviewRequestModel> {
        if self.is_review_request() {
            Some(self.review_request())
        } else {
            None
        }
    }
}

impl ReviewRequest {
    /// Keeps a notification only if it asks for the review of a pull request,
    /// and then carries over its title, repository and detail URL.
    pub fn from_notification(n: Notification) -> (r: Option<ReviewRequest>)
        ensures
            r.is_some() <==> n@.is_review_request(),
            r matches Some(rr) ==> rr@ == n@.review_request(),
    {
        if !same_text(n.reason.as_str(), "review_requested") || !same_text(
            n.subject._type.as_str(),
            "PullRequest",
        ) {
            return None;
        }
        Some(ReviewRequest { pr_title: n.subject.title, repository: n.repository.name, url: n.subject.url })
    }
}

/// The notification that a feed object holds: its `reason`, its `subject`
/// with `type`, `title` and `url`, and its `repository` with `name`, each of
/// them a string. Other members are ignored; an object that lacks one of
/// these holds no notification.
pub open spec fn notification_of(value: serde_json::Value) -> Option<NotificationModel> {
    match (json_member(value, "subject"@), json_member(value, "repository"@)) {
        (Some(subject), Some(repository)) => match (
            text_member(value, "reason"@),
            text_member(subject, "type"@),
            text_member(subject, "title"@),
            text_member(subject, "url"@),
            text_member(repository, "name"@),
        ) {
            (Some(reason), Some(subject_type), Some(subject_title), Some(subject_url), Some(name)) => Some(
                NotificationModel {
                    reason,
                    subject_type,
                    subject_title,
                    subject_url,
                    repository: name,
                },
            ),
            _ => None,
        },
        _ => None,
    }
}

impl Notification {
    /// Decodes one element of a feed page.
    pub fn from_value(value: &serde_json::Value) -> (r: Option<Notification>)
        ensures
            r.is_some() <==> notification_of(*value).is_some(),
            r matches Some(n) ==> notification_of(*value) == Some(n@),
    {
        let subject = match member(value, "subject") {
            Some(s) => s,
            None => { return None; },
        };
        let repository = match member(value, "repository") {
            Some(r) => r,
            None => { return None; },
        };
        let reason = match read_text(value, "reason") {
            Some(s) => s,
            None => { return None; },
        };
        let _type = match read_text(subject, "type") {
            Some(s) => s,
            None => { return None; },
        };
        let title = match read_text(subject, "title") {
            Some(s) => s,
            None => { return None; },
        };
        let url = match read_text(subject, "url") {
            Some(s) => s,
            None => { return None; },
        };
        let name = match read_text(repository, "name") {
            Some(s) => s,
            None => { return None; },
        };
        Some(Notification { reason, subject: Subject { _type, title, url }, repository: Repository { name } })
    }
}

/// The branch a pull request targets.
#[derive(Debug, Clone)]
pub struct PullRequestBase {
    pub repo: Repository,
}

/// A pull request as the detail source describes it. Times are seconds since
/// the Unix epoch.
#[derive(Debug, Clone)]
pub struct PullRequest {
    pub number: i64,
    pub title: String,
    pub html_url: String,
    pub created_at: i64,
    pub merged_at: Option<i64>,
    pub closed_at: Option<i64>,
    pub base: PullRequestBase,
}

/// What a pull request says, as mathematical values.
pub ghost struct PullRequestModel {
    pub number: int,
    pub title: Seq<char>,
    pub html_url: Seq<char>,
    pub created_at: int,
    pub merged_at: Option<int>,
    pub closed_at: Option<int>,
    pub repo: Seq<char>,
}

impl PullRequestModel {
    /// Open means neither merged nor closed.
    pub open spec fn is_open(self) -> bool {
        self.merged_at.is_none() && self.closed_at.is_none()
    }
}

/// An optional time, widened to mathematical integers.
pub open spec fn time_model(t: Option<i64>) -> Option<int> {
    match t {
        Some(s) => Some(s as int),
        None => None,
    }
}

impl DeepView for PullRequest {
    type V = PullRequestModel;

    open spec fn deep_view(&self) -> PullRequestModel {
        self@
    }
}

impl View for PullRequest {
    type V = PullRequestModel;

    open spec fn view(&self) -> PullRequestModel {
        PullRequestModel {
            number: self.number as int,
            title: self.title@,
            html_url: self.html_url@,
            created_at: self.created_at as int,
            merged_at: time_model(self.merged_at),
            closed_at: time_model(self.closed_at),
            repo: self.base.repo.name@,
        }
    }
}

/// A member that holds a time: the member must be a string that denotes one.
pub open spec fn time_member(value: serde_json::Value, key: Seq<char>) -> Option<int> {
    match text_member(value, key) {
        Some(t) => timestamp_seconds(t),
        None => None,
    }
}

/// A member that may hold a time. An absent member and `null` both mean "no
/// time"; anything else must be a string that denotes one, or the whole
/// object is malformed (the outer `None`).
pub open spec fn optional_time_member(value: serde_json::Value, key: Seq<char>) -> Option<
    Option<int>,
> {
    match json_member(value, key) {
        None => Some(None),
        Some(found) => if json_is_null(found) {
            Some(None)
        } else {
            match json_text(found) {
                None => None,
                Some(t) => match timestamp_seconds(t) {
                    None => None,
                    Some(s) => Some(Some(s)),
                },
            }
        },
    }
}

/// The name of the repository a pull request targets: `base.repo.name`.
pub open spec fn base_repo_member(value: serde_json::Value) -> Option<Seq<char>> {
    match json_member(value, "base"@) {
        Some(base) => match json_member(base, "repo"@) {
            Some(repo) => text_member(repo, "name"@),
            None => None,
        },
        None => None,
    }
}

/// The pull request that a detail object holds: `number`, `title`,
/// `html_url`, `created_at`, the optional `merged_at` and `closed_at`, and
/// `base.repo.name`.
pub open spec fn pull_request_of(value: serde_json::Value) -> Option<PullRequestModel> {
    match (
        json_member(value, "number"@),
        text_member(value, "title"@),
        text_member(value, "html_url"@),
        time_member(value, "created_at"@),
        optional_time_member(value, "merged_at"@),
        optional_time_member(value, "closed_at"@),
        base_repo_member(value),
    ) {
        (Some(n), Some(title), Some(html_url), Some(created_at), Some(merged_at), Some(closed_at), Some(repo)) =>
            match json_integer(n) {
                Some(number) => Some(
                    PullRequestModel { number, title, html_url, created_at, merged_at, closed_at, repo },
                ),
                None => None,
            },
        _ => None,
    }
}

fn read_optional_time(value: &serde_json::Value, key: &str) -> (r: Option<Option<i64>>)
    ensures
        r.is_some() <==> optional_time_member(*value, key@).is_some(),
        r matches Some(t) ==> optional_time_member(*value, key@) == Some(time_model(t)),
{
    match member(value, key) {
        None => Some(None),
        Some(found) => {
            if is_null(found) {
                Some(None)
            } else {
                match text(found) {
                    None => None,
                    Some(t) => match parse_timestamp(t) {
                        None => None,
                        Some(s) => Some(Some(s)),
                    },
                }
            }
        },
    }
}

fn read_base_repo(value: &serde_json::Value) -> (r: Option<String>)
    ensures
        r.is_some() <==> base_repo_member(*value).is_some(),
        r matches Some(s) ==> base_repo_member(*value) == Some(s@),
{
    match member(value, "base") {
        Some(base) => match member(base, "repo") {
            Some(repo) => read_text(repo, "name"),
            None => None,
        },
        None => None,
    }
}

impl PullRequest {
    /// Builds a pull request from its parts.
    pub fn new(
        number: i64,
        title: String,
        html_url: String,
        created_at: i64,
        merged_at: Option<i64>,
        closed_at: Option<i64>,
        repo: String,
    ) -> (pr: PullRequest)
        ensures
            pr@ == (PullRequestModel {
                number: number as int,
                title: title@,
                html_url: html_url@,
                created_at: created_at as int,
                merged_at: time_model(merged_at),
                closed_at: time_model(closed_at),
                repo: repo@,
            }),
    {
        PullRequest {
            number,
            title,
            html_url,
            created_at,
            merged_at,
            closed_at,
            base: PullRequestBase { repo: Repository { name: repo } },
        }
    }

    /// A pull request is open while it is neither merged nor closed.
    pub fn is_open(&self) -> (r: bool)
        ensures
            r == self@.is_open(),
            r == (self.merged_at.is_none() && self.closed_at.is_none()),
    {
        self.merged_at.is_none() && self.closed_at.is_none()
    }

    /// The name of the repository the pull request targets.
    pub fn repo(&self) -> (r: &str)
        ensures
            r@ == self@.repo,
    {
        self.base.repo.name.as_str()
    }

    /// Decodes the detail object of a pull request.
    pub fn from_value(value: &serde_json::Value) -> (r: Option<PullRequest>)
        ensures
            r.is_some() <==> pull_request_of(*value).is_some(),
            r matches Some(pr) ==> pull_request_of(*value) == Some(pr@),
    {
        let number = match member(value, "number") {
            Some(n) => match integer(n) {
                Some(i) => i,
                None => { return None; },
            },
            None => { return None; },
        };
        let title = match read_text(value, "title") {
            Some(s) => s,
            None => { return None; },
        };
        let html_url = match read_text(value, "html_url") {
            Some(s) => s,
            None => { return None; },
        };
        let created_at = match read_text(value, "created_at") {
            Some(s) => match parse_timestamp(s.as_str()) {
                Some(t) => t,
                None => { return None; },
            },
            None => { return None; },
        };
        let merged_at = match read_optional_time(value, "merged_at") {
            Some(t) => t,
            None => { return None; },
        };
        let closed_at = match read_optional_time(value, "closed_at") {
            Some(t) => t,
            None => { return None; },
        };
        let repo = match read_base_repo(value) {
            Some(s) => s,
            None => { return None; },
        };
        Some(PullRequest::new(number, title, html_url, created_at, merged_at, closed_at, repo))
    }
}

} // verus!
