//! Polls a notification feed for review requests, resolves them into pull
//! requests, and hands each new one to a task list exactly once.
//!
//! The crate holds the decisions of that pipeline as verified functions on
//! plain values. Whatever performs requests, sleeps or touches storage drives
//! these functions and reports back what happened.

use vstd::prelude::*;
use crate::notification::{PullRequest, PullRequestModel};
use crate::review_handler::{admits, admitted_table, record_of, RecordModel, ReviewHandler};
use crate::todoist_client::{task_content, NewTask};

pub mod client;
pub mod error;
pub mod headers;
pub mod json;
pub mod notification;
pub mod notifications_polling;
pub mod notifications_response;
pub mod resolver;
pub mod review_handler;
pub mod text;
pub mod timestamp;
pub mod todoist_client;
pub mod urls;

verus! {

/// Whether a resolved pull request leads to a task: it must be open, and it
/// must not have been recorded before.
pub open spec fn leads_to_task(table: Seq<RecordModel>, pr: PullRequestModel) -> bool {
    pr.is_open() && admits(table, record_of(pr))
}

/// The last stage of the pipeline for one resolved pull request. A pull
/// request that is merged or closed is skipped and not recorded. An open one
/// is recorded; if that was its first recording, the task to create for it
/// is returned.
pub fn process_pull_request(handler: &mut ReviewHandler, pr: PullRequest) -> (task: Option<NewTask>)
    requires
        old(handler).well_formed(),
    ensures
        final(handler).well_formed(),
        final(handler)@ == (if pr@.is_open() {
            admitted_table(old(handler)@, record_of(pr@))
        } else {
            old(handler)@
        }),
        task.is_some() <==> leads_to_task(old(handler)@, pr@),
        task matches Some(t) ==> t.content@ == task_content(pr@) && t.due_string@ == "today"@,
{
    if !pr.is_open() {
        return None;
    }
    match handler.record_in_task(pr) {
        Some(recorded) => Some(NewTask::for_pull_request(&recorded)),
        None => None,
    }
}

} // verus!
