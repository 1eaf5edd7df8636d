//! Resolving review requests into pull requests, a bounded number at a time.

use vstd::prelude::*;
use crate::error::PollError;
use crate::json::{json_document, parse_document};
use crate::notification::{pull_request_of, PullRequest, PullRequestModel, ReviewRequest};

verus! {

/// The most detail requests that may be under way at once.
pub const MAX_IN_FLIGHT: usize = 10;

/// The schedule of a cycle's detail requests: the review requests in feed
/// order, how many of them have been started, and how many of those have not
/// come back yet.
#[derive(Debug, Clone)]
pub struct Resolver {
    pub pending: Vec<ReviewRequest>,
    pub started: usize,
    pub in_flight: usize,
}

/// What the resolver asks of whoever performs the requests.
#[derive(Debug, Clone)]
pub enum ResolverStep {
    /// Send the detail request for this review request now.
    Start(ReviewRequest),
    /// Nothing can be started; wait for a request to come back.
    Wait,
    /// Every request has been started and has come back.
    Finished,
}

/// What happens to a resolver: it is asked for its next step, or a request
/// that was under way comes back.
#[derive(Debug, Clone, Copy, PartialEq, Eq, Structural)]
pub enum ResolverEvent {
    Polled,
    Completed,
}

/// The counters of a resolver.
pub ghost struct ResolverCounts {
    pub total: nat,
    pub started: nat,
    pub in_flight: nat,
}

/// The counters after an event. Asking starts a request if one is left and
/// fewer than the limit are under way; a completion frees a slot.
pub open spec fn stepped(counts: ResolverCounts, event: ResolverEvent) -> ResolverCounts {
    match event {
        ResolverEvent::Polled => if counts.in_flight < MAX_IN_FLIGHT && counts.started
            < counts.total {
            ResolverCounts {
                started: counts.started + 1,
                in_flight: counts.in_flight + 1,
                ..counts
            }
        } else {
            counts
        },
        ResolverEvent::Completed => if counts.in_flight > 0 {
            ResolverCounts { in_flight: (counts.in_flight - 1) as nat, ..counts }
        } else {
            counts
        },
    }
}

/// The counters after a run of events.
pub open spec fn after_events(counts: ResolverCounts, events: Seq<ResolverEvent>) -> ResolverCounts
    decreases events.len(),
{
    if events.len() == 0 {
        counts
    } else {
        stepped(after_events(counts, events.drop_last()), events.last())
    }
}

impl Resolver {
    /// The counters of the resolver.
    pub open spec fn counts(&self) -> ResolverCounts {
        ResolverCounts {
            total: self.pending.len() as nat,
            started: self.started as nat,
            in_flight: self.in_flight as nat,
        }
    }

    /// Never more than the limit under way, and nothing under way that was
    /// not started.
    pub open spec fn well_formed(&self) -> bool {
        &&& self.started <= self.pending.len()
        &&& self.in_flight <= self.started
        &&& self.in_flight <= MAX_IN_FLIGHT
    }

    /// Whether another request may be started now.
    pub open spec fn can_start(&self) -> bool {
        self.in_flight < MAX_IN_FLIGHT && self.started < self.pending.len()
    }

    /// Asks for the next step. A request is started whenever one is left and
    /// fewer than the limit are under way, in feed order.
    pub fn poll(&mut self) -> (step: ResolverStep)
        requires
            old(self).well_formed(),
        ensures
            final(self).well_formed(),
            final(self).pending == old(self).pending,
            final(self).counts() == stepped(old(self).counts(), ResolverEvent::Polled),
            old(self).can_start() ==> ({
                &&& step matches ResolverStep::Start(request)
                &&& request@ == old(self).pending[old(self).started as int]@
                &&& final(self).started == old(self).started + 1
                &&& final(self).in_flight == old(self).in_flight + 1
            }),
            !old(self).can_start() ==> ({
                &&& final(self).started == old(self).started
                &&& final(self).in_flight == old(self).in_flight
            }),
            !old(self).can_start() && old(self).in_flight > 0 ==> step is Wait,
            !old(self).can_start() && old(self).in_flight == 0 ==> step is Finished,
    {
        if self.in_flight < MAX_IN_FLIGHT && self.started < self.pending.len() {
            let next = &self.pending[self.started];
            let request = ReviewRequest {
                pr_title: next.pr_title.clone(),
                repository: next.repository.clone(),
                url: next.url.clone(),
            };
            self.started += 1;
            self.in_flight += 1;
            ResolverStep::Start(request)
        } else if self.in_flight > 0 {
            ResolverStep::Wait
        } else {
            ResolverStep::Finished
        }
    }

    /// Takes in the outcome of one request that was under way. A pull request
    /// goes on down the pipeline; a failure drops the item and nothing else.
    pub fn complete(&mut self, outcome: Result<PullRequest, PollError>) -> (resolved: Option<
        PullRequest,
    >)
        requires
            old(self).well_formed(),
        ensures
            final(self).well_formed(),
            final(self).pending == old(self).pending,
            final(self).started == old(self).started,
            final(self).counts() == stepped(old(self).counts(), ResolverEvent::Completed),
            final(self).in_flight == (if old(self).in_flight > 0 {
                old(self).in_flight - 1
            } else {
                0
            }),
            match outcome {
                Ok(pr) => resolved == Some(pr),
                Err(_) => resolved.is_none(),
            },
    {
        if self.in_flight > 0 {
            self.in_flight -= 1;
        }
        match outcome {
            Ok(pr) => Some(pr),
            Err(_) => None,
        }
    }
}

/// Sets up the resolution of a cycle's review requests.
pub fn notifications_to_pull_requests(reviews: Vec<ReviewRequest>) -> (resolver: Resolver)
    ensures
        resolver.well_formed(),
        resolver.pending == reviews,
        resolver.started == 0,
        resolver.in_flight == 0,
        resolver.counts() == (ResolverCounts {
            total: reviews.len() as nat,
            started: 0,
            in_flight: 0,
        }),
{
    Resolver { pending: reviews, started: 0, in_flight: 0 }
}

/// However many review requests a cycle brings, and in whatever order
/// requests are asked for and come back, never more than ten are under way,
/// and none is under way that was not started.
pub proof fn lemma_in_flight_bounded(total: nat, events: Seq<ResolverEvent>)
    ensures
        ({
            let counts = after_events(
                ResolverCounts { total, started: 0, in_flight: 0 },
                events,
            );
            &&& counts.in_flight <= 10
            &&& counts.in_flight <= counts.started
            &&& counts.started <= total
            &&& counts.total == total
        }),
    decreases events.len(),
{
    if events.len() > 0 {
        lemma_in_flight_bounded(total, events.drop_last());
    }
}

/// The pull request in the body of a detail response.
pub open spec fn detail_of(body: Seq<u8>) -> Option<PullRequestModel> {
    match json_document(body) {
        Some(document) => pull_request_of(document),
        None => None,
    }
}

/// What a detail response means: a pull request if the status is a success
/// and the body holds one.
pub open spec fn resolved(status: u16, body: Seq<u8>) -> Result<PullRequestModel, PollError> {
    if 200 <= status < 300 {
        match detail_of(body) {
            Some(pr) => Ok(pr),
            None => Err(PollError::Parse),
        }
    } else {
        Err(PollError::UnrecognizedStatus(status))
    }
}

/// Reads the pull request out of a detail response.
pub fn get_pr_for_review_request(status: u16, body: &[u8]) -> (r: Result<PullRequest, PollError>)
    ensures
        match resolved(status, body@) {
            Ok(model) => r matches Ok(pr) && pr@ == model,
            Err(error) => r matches Err(e) && e == error,
        },
{
    if status < 200 || status >= 300 {
        return Err(PollError::UnrecognizedStatus(status));
    }
    match parse_document(body) {
        Ok(document) => match PullRequest::from_value(&document) {
            Some(pr) => Ok(pr),
            None => Err(PollError::Parse),
        },
        Err(_) => Err(PollError::Parse),
    }
}

} // verus!
