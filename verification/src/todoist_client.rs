//! The task sink: what is sent for an admitted pull request, and what the
//! sink's answer means.

use vstd::prelude::*;
use vstd::string::StringExecFns;
use crate::error::PollError;
use crate::notification::{PullRequest, PullRequestModel};
use crate::text::{decimal, decimal_text};
use crate::urls::{join_url, url_join};

verus! {

/// A task to create.
#[derive(Debug, Clone)]
pub struct NewTask {
    pub content: String,
    pub due_string: String,
}

/// The sink, by the URL that tasks are posted to.
#[derive(Debug, Clone)]
pub struct TodoistClient {
    pub tasks_url: String,
}

/// The text of the task for a pull request: its URL, then in parentheses the
/// repository, a hash sign, the number, a colon and the title.
pub open spec fn task_content(pr: PullRequestModel) -> Seq<char> {
    pr.html_url + " ("@ + pr.repo + "#"@ + decimal_text(pr.number) + ": "@ + pr.title + ")"@
}

impl NewTask {
    /// The task that asks for the review of a pull request, due today.
    pub fn for_pull_request(pr: &PullRequest) -> (task: NewTask)
        ensures
            task.content@ == task_content(pr@),
            task.due_string@ == "today"@,
    {
        let mut content = pr.html_url.clone();
        content.append(" (");
        content.append(pr.repo());
        content.append("#");
        content.append(decimal(pr.number).as_str());
        content.append(": ");
        content.append(pr.title.as_str());
        content.append(")");
        NewTask { content, due_string: "today".to_owned() }
    }
}

impl TodoistClient {
    /// Sets up the sink at a host. Fails if the URL for tasks cannot be
    /// formed from the host.
    pub fn new(host: &str) -> (r: Option<TodoistClient>)
        ensures
            match url_join(host@, "/API/v8/tasks"@) {
                Some(url) => r matches Some(client) && client.tasks_url@ == url,
                None => r.is_none(),
            },
    {
        match join_url(host, "/API/v8/tasks") {
            Some(tasks_url) => Some(TodoistClient { tasks_url }),
            None => None,
        }
    }

    /// The task to post for a pull request.
    pub fn create_task_for_pr(&self, pr: &PullRequest) -> (task: NewTask)
        ensures
            task.content@ == task_content(pr@),
            task.due_string@ == "today"@,
    {
        NewTask::for_pull_request(pr)
    }
}

/// The value of the authorization header that the sink expects: the word
/// `Bearer`, a space, and the token.
pub fn default_headers(todoist_token: &str) -> (value: String)
    ensures
        value@ == "Bearer "@ + todoist_token@,
{
    let mut value = "Bearer ".to_owned();
    value.append(todoist_token);
    value
}

/// Whether the sink took the task: any status from 200 to 299 is a success,
/// every other one a failure that is reported and not retried.
pub fn task_created(status: u16) -> (r: Result<(), PollError>)
    ensures
        200 <= status < 300 ==> r.is_ok(),
        !(200 <= status < 300) ==> r == Err::<(), PollError>(PollError::UnrecognizedStatus(status)),
{
    if 200 <= status && status < 300 {
        Ok(())
    } else {
        Err(PollError::UnrecognizedStatus(status))
    }
}

} // verus!
