//! The cycle stream driver: poll cycles one after the other, each numbered,
//! each retried with exponentially growing pauses, and none of them able to
//! end the stream by failing.

use tokio_retry::strategy::ExponentialBackoff;
use vstd::prelude::*;
use crate::client::{advanced, all_items, review_requests_of, ClientModel, GithubClient, PageWalk};
use crate::error::{PollError, TransportKind};
use crate::notification::{ReviewRequest, ReviewRequestModel};
use crate::notifications_response::{
    from_http, page_of, HttpResponse, NotificationsResponse, PageModel,
};

verus! {

/// The product of two numbers, held at the largest `u64` where it would exceed it.
pub open spec fn saturating_product(a: u64, b: u64) -> u64 {
    if a * b > u64::MAX {
        u64::MAX
    } else {
        (a * b) as u64
    }
}

/// The base raised to the power `n + 1`, saturating.
pub open spec fn backoff_power(base: u64, n: nat) -> u64
    decreases n,
{
    if n == 0 {
        base
    } else {
        saturating_product(backoff_power(base, (n - 1) as nat), base)
    }
}

/// The pause before retry `n` (counting from zero) of an exponential
/// back-off, in milliseconds.
pub open spec fn backoff_delay(base: u64, factor: u64, n: nat) -> u64 {
    saturating_product(backoff_power(base, n), factor)
}

/// `tokio_retry::strategy::ExponentialBackoff::from_millis(base)` with
/// `factor(factor)`, its first `retries` durations taken and given in
/// milliseconds. The strategy keeps a current value that starts at the base
/// and is multiplied by the base after every step; each duration is the
/// current value times the factor; both products saturate.
#[verifier::external_body]
pub(crate) fn exponential_backoff(base: u64, factor: u64, retries: usize) -> (delays: Vec<u64>)
    requires
        retries <= 64,
    ensures
        delays@.len() == retries,
        forall|n: int| 0 <= n < retries ==> delays@[n] == backoff_delay(base, factor, n as nat),
{
    ExponentialBackoff::from_millis(base).factor(factor).take(retries).map(
        |pause| pause.as_millis() as u64,
    ).collect()
}

/// How many times a failed cycle is attempted again.
pub const MAX_RETRIES: usize = 5;

/// The pause before retry `n` of a poll cycle, in milliseconds: ten before
/// the first, and twice the previous one before each later retry.
pub open spec fn retry_delay(n: nat) -> u64 {
    backoff_delay(2, 5, n)
}

/// What to do about a cycle that failed, after `used` retries: retry after a
/// pause while the failure is one that may pass and retries are left, give up
/// otherwise.
pub open spec fn retry_decision(used: nat, error: PollError) -> RetryDecision {
    if error.retryable() && used < MAX_RETRIES {
        RetryDecision::Retry { delay_millis: retry_delay(used) }
    } else {
        RetryDecision::GiveUp(error)
    }
}

/// The verdict on a failed attempt.
#[derive(Debug, Clone, Copy, PartialEq, Eq, Structural)]
pub enum RetryDecision {
    /// Attempt the cycle again after this many milliseconds.
    Retry { delay_millis: u64 },
    /// The cycle has failed with this error.
    GiveUp(PollError),
}

/// The retries a cycle has left: the schedule of pauses and how many of them
/// are spent.
#[derive(Debug, Clone)]
pub struct RetryState {
    pub delays: Vec<u64>,
    pub used: usize,
}

impl RetryState {
    /// The schedule is the fixed one, and no more of it is spent than it holds.
    pub open spec fn well_formed(&self) -> bool {
        &&& self.delays@.len() == MAX_RETRIES
        &&& self.used <= MAX_RETRIES
        &&& forall|n: int| 0 <= n < MAX_RETRIES ==> self.delays@[n] == retry_delay(n as nat)
    }

    /// A fresh schedule, for the first attempt of a cycle.
    pub fn new() -> (state: RetryState)
        ensures
            state.well_formed(),
            state.used == 0,
    {
        RetryState { delays: exponential_backoff(2, 5, MAX_RETRIES), used: 0 }
    }

    /// Decides what follows a failed attempt, and spends a retry if one is granted.
    pub fn on_failure(&mut self, error: PollError) -> (decision: RetryDecision)
        requires
            old(self).well_formed(),
        ensures
            final(self).well_formed(),
            decision == retry_decision(old(self).used as nat, error),
            final(self).used == (if decision is Retry {
                old(self).used + 1
            } else {
                old(self).used as int
            }),
            final(self).delays == old(self).delays,
    {
        if error.is_retryable() && self.used < self.delays.len() {
            let delay_millis = self.delays[self.used];
            self.used += 1;
            RetryDecision::Retry { delay_millis }
        } else {
            RetryDecision::GiveUp(error)
        }
    }
}

/// The pauses of the schedule are 10, 20, 40, 80 and 160 milliseconds.
pub proof fn lemma_retry_delays()
    ensures
        retry_delay(0) == 10,
        retry_delay(1) == 20,
        retry_delay(2) == 40,
        retry_delay(3) == 80,
        retry_delay(4) == 160,
{
    reveal_with_fuel(backoff_power, 6);
}

/// A cycle whose every attempt fails in a way that may pass is retried
/// exactly five times: the first retry comes after ten milliseconds, each
/// later one after twice the pause before, and the failure after the fifth
/// retry is final.
pub proof fn lemma_retry_bound(error: PollError)
    requires
        error.retryable(),
    ensures
        forall|used: nat| used < 5 ==> #[trigger] retry_decision(used, error) == (RetryDecision::Retry {
            delay_millis: retry_delay(used),
        }),
        retry_decision(5, error) == RetryDecision::GiveUp(error),
        retry_delay(0) == 10,
        forall|used: nat| used < 4 ==> #[trigger] retry_delay(used + 1) == 2 * retry_delay(used),
        forall|used: nat| used < 4 ==> retry_delay(used) < #[trigger] retry_delay(used + 1),
{
    lemma_retry_delays();
    assert forall|used: nat| used < 4 implies #[trigger] retry_delay(used + 1) == 2 * retry_delay(
        used,
    ) by {
        if used == 0 {
        } else if used == 1 {
        } else if used == 2 {
        } else {
            assert(used == 3);
        }
    }
}

/// Where the driver stands.
#[derive(Debug, Clone, Copy, PartialEq, Eq, Structural)]
pub enum Phase {
    /// Between cycles.
    Idle,
    /// A pause is under way: the wait the server asked for, or the pause
    /// before a retry.
    Waiting,
    /// A page has been asked for.
    Fetching,
    /// The cycle's review requests have been handed out and are being drained.
    Filtering,
    /// The cycle has failed for good; the next one can begin.
    Failed,
}

/// A pause, in the unit it was asked for.
#[derive(Debug, Clone, Copy, PartialEq, Eq, Structural)]
pub enum Delay {
    Seconds(u64),
    Millis(u64),
}

/// What the driver asks of whoever runs it.
#[derive(Debug, Clone)]
pub enum DriverAction {
    /// Pause, then report that the pause is over.
    Sleep(Delay),
    /// Request this page, conditional on the validator, then report the
    /// response or the transport failure.
    Fetch { url: String, if_modified_since: String },
    /// The cycle is complete: these are its review requests, in feed order,
    /// each to be tagged with the cycle's number.
    Yield { requests: Vec<ReviewRequest>, batch_number: u64 },
    /// The cycle with this number has failed for good.
    Fail { batch_number: u64, error: PollError },
    /// The report did not fit the phase; nothing has changed.
    Ignored,
}

impl DriverAction {
    /// The action is a request for this page with this validator.
    pub open spec fn fetches(self, url: Seq<char>, validator: Seq<char>) -> bool {
        self matches DriverAction::Fetch { url: u, if_modified_since: v } && u@ == url && v@
            == validator
    }

    /// The action hands out these review requests under this cycle number.
    pub open spec fn yields(self, items: Seq<ReviewRequestModel>, number: u64) -> bool {
        self matches DriverAction::Yield { requests, batch_number } && requests.deep_view() == items
            && batch_number == number
    }
}

/// The driver of the cycle stream.
#[derive(Debug, Clone)]
pub struct CycleDriver {
    /// The number of the current cycle; zero before the first.
    pub batch_number: u64,
    pub phase: Phase,
    /// The session state that the current cycle started from.
    pub client: GithubClient,
    pub retry: RetryState,
    pub walk: PageWalk,
    /// The pages of the current attempt so far.
    pub pages: Vec<NotificationsResponse>,
}

/// The number after a cycle number. Numbers start at one and grow by one;
/// the largest `u64` is its own successor.
pub open spec fn next_batch_number(n: u64) -> u64 {
    if n < u64::MAX {
        (n + 1) as u64
    } else {
        n
    }
}

/// The session with its pending wait marked as done.
pub open spec fn waited_out(client: ClientModel) -> ClientModel {
    ClientModel { last_poll_interval: None, ..client }
}

impl CycleDriver {
    /// The retry schedule is intact. While pages are being fetched, the
    /// walk carries the validator that the cycle started with, and no wait
    /// is pending: a wait is over before the first request goes out.
    pub open spec fn well_formed(&self) -> bool {
        &&& self.retry.well_formed()
        &&& self.phase == Phase::Fetching ==> self.walk.last_modified@
            == self.client@.notifications_last_modified
        &&& self.phase == Phase::Fetching ==> self.client.last_poll_interval.is_none()
    }

    /// What the driver does about a failed attempt in the fetching phase:
    /// pause and try again, or fail the cycle.
    pub open spec fn failed_attempt(old_self: Self, new_self: Self, action: DriverAction, error: PollError) -> bool {
        &&& new_self.batch_number == old_self.batch_number
        &&& new_self.client == old_self.client
        &&& new_self.pages@.len() == 0
        &&& match retry_decision(old_self.retry.used as nat, error) {
            RetryDecision::Retry { delay_millis } => {
                &&& new_self.phase == Phase::Waiting
                &&& new_self.retry.used == old_self.retry.used + 1
                &&& action matches DriverAction::Sleep(Delay::Millis(d))
                &&& d == delay_millis
            },
            RetryDecision::GiveUp(e) => {
                &&& new_self.phase == Phase::Failed
                &&& new_self.retry.used == old_self.retry.used
                &&& action matches DriverAction::Fail { batch_number, error: reported }
                &&& batch_number == old_self.batch_number
                &&& reported == e
            },
        }
    }

    /// What the driver does with a page that arrived in the fetching phase:
    /// go on to the continuation if the page names one, close the cycle
    /// otherwise.
    pub open spec fn took_page(old_self: Self, new_self: Self, action: DriverAction, page: PageModel) -> bool {
        let pages = old_self.pages.deep_view().push(page);
        &&& new_self.batch_number == old_self.batch_number
        &&& new_self.retry == old_self.retry
        &&& match page.next_page {
            Some(url) => {
                &&& new_self.phase == Phase::Fetching
                &&& new_self.client == old_self.client
                &&& new_self.pages.deep_view() == pages
                &&& action.fetches(url, old_self.client@.notifications_last_modified)
            },
            None => {
                &&& new_self.phase == Phase::Filtering
                &&& new_self.client@ == advanced(old_self.client@, pages[0])
                &&& new_self.pages@.len() == 0
                &&& action.yields(review_requests_of(all_items(pages)), old_self.batch_number)
            },
        }
    }

    fn fetch_first(&mut self) -> (action: DriverAction)
        requires
            old(self).client.last_poll_interval.is_none(),
        ensures
            final(self).phase == Phase::Fetching,
            final(self).batch_number == old(self).batch_number,
            final(self).client == old(self).client,
            final(self).retry == old(self).retry,
            final(self).pages@.len() == 0,
            final(self).walk.last_modified@ == old(self).client@.notifications_last_modified,
            action.fetches(
                old(self).client@.notifications_url,
                old(self).client@.notifications_last_modified,
            ),
    {
        self.walk = self.client.current_notifications();
        self.pages = Vec::new();
        self.phase = Phase::Fetching;
        DriverAction::Fetch {
            url: self.client.notifications_url.clone(),
            if_modified_since: self.walk.last_modified.clone(),
        }
    }

    fn fail_attempt(&mut self, error: PollError) -> (action: DriverAction)
        requires
            old(self).well_formed(),
        ensures
            final(self).well_formed(),
            Self::failed_attempt(*old(self), *final(self), action, error),
    {
        self.pages = Vec::new();
        match self.retry.on_failure(error) {
            RetryDecision::Retry { delay_millis } => {
                self.phase = Phase::Waiting;
                DriverAction::Sleep(Delay::Millis(delay_millis))
            },
            RetryDecision::GiveUp(e) => {
                self.phase = Phase::Failed;
                DriverAction::Fail { batch_number: self.batch_number, error: e }
            },
        }
    }

    /// Begins the next cycle. It gets the next number and a fresh set of
    /// retries. If the server asked for a wait, the wait comes first;
    /// otherwise the first page is requested at once.
    pub fn begin(&mut self) -> (action: DriverAction)
        requires
            old(self).well_formed(),
        ensures
            final(self).well_formed(),
            old(self).phase == Phase::Idle || old(self).phase == Phase::Failed ==> ({
                &&& final(self).batch_number == next_batch_number(old(self).batch_number)
                &&& final(self).retry.used == 0
                &&& final(self).client == old(self).client
                &&& final(self).pages@.len() == 0
                &&& match old(self).client.last_poll_interval {
                    Some(seconds) => {
                        &&& final(self).phase == Phase::Waiting
                        &&& action matches DriverAction::Sleep(Delay::Seconds(s))
                        &&& s == seconds
                    },
                    None => {
                        &&& final(self).phase == Phase::Fetching
                        &&& action.fetches(
                            old(self).client@.notifications_url,
                            old(self).client@.notifications_last_modified,
                        )
                    },
                }
            }),
            !(old(self).phase == Phase::Idle || old(self).phase == Phase::Failed) ==> action is Ignored
                && *final(self) == *old(self),
    {
        match self.phase {
            Phase::Idle | Phase::Failed => {},
            _ => {
                return DriverAction::Ignored;
            },
        }
        if self.batch_number < u64::MAX {
            self.batch_number += 1;
        }
        self.retry = RetryState::new();
        self.pages = Vec::new();
        match self.client.wait_poll_interval() {
            Some(seconds) => {
                self.phase = Phase::Waiting;
                DriverAction::Sleep(Delay::Seconds(seconds))
            },
            None => self.fetch_first(),
        }
    }

    /// Takes the report that a pause is over. The pending wait, if any, is
    /// thereby spent, and the walk starts at the first page.
    pub fn waited(&mut self) -> (action: DriverAction)
        requires
            old(self).well_formed(),
        ensures
            final(self).well_formed(),
            old(self).phase == Phase::Waiting ==> ({
                &&& final(self).phase == Phase::Fetching
                &&& final(self).batch_number == old(self).batch_number
                &&& final(self).retry == old(self).retry
                &&& final(self).client@ == waited_out(old(self).client@)
                &&& final(self).pages@.len() == 0
                &&& action.fetches(
                    old(self).client@.notifications_url,
                    old(self).client@.notifications_last_modified,
                )
            }),
            old(self).phase != Phase::Waiting ==> action is Ignored && *final(self) == *old(self),
    {
        match self.phase {
            Phase::Waiting => {},
            _ => {
                return DriverAction::Ignored;
            },
        }
        self.client.clear_poll_interval();
        self.fetch_first()
    }

    /// Takes the response to the page request that is under way.
    pub fn response(&mut self, response: &HttpResponse) -> (action: DriverAction)
        requires
            old(self).well_formed(),
        ensures
            final(self).well_formed(),
            old(self).phase == Phase::Fetching ==> match page_of(*response) {
                Ok(page) => Self::took_page(*old(self), *final(self), action, page),
                Err(error) => Self::failed_attempt(*old(self), *final(self), action, error),
            },
            old(self).phase != Phase::Fetching ==> action is Ignored && *final(self) == *old(self),
    {
        match self.phase {
            Phase::Fetching => {},
            _ => {
                return DriverAction::Ignored;
            },
        }
        match from_http(response) {
            Ok(page) => {
                let ghost before = self.pages.deep_view();
                self.walk.accept(&page);
                self.pages.push(page);
                assert(self.pages.deep_view() =~= before.push(page@));
                match self.walk.next_request() {
                    Some(url) => DriverAction::Fetch {
                        url,
                        if_modified_since: self.walk.last_modified.clone(),
                    },
                    None => match self.client.next_review_requests(&self.pages) {
                        Ok((requests, client)) => {
                            self.client = client;
                            self.pages = Vec::new();
                            self.phase = Phase::Filtering;
                            DriverAction::Yield { requests, batch_number: self.batch_number }
                        },
                        Err(error) => self.fail_attempt(error),
                    },
                }
            },
            Err(error) => self.fail_attempt(error),
        }
    }

    /// Takes the report that the page request under way did not complete.
    pub fn transport_failed(&mut self, kind: TransportKind) -> (action: DriverAction)
        requires
            old(self).well_formed(),
        ensures
            final(self).well_formed(),
            old(self).phase == Phase::Fetching ==> Self::failed_attempt(
                *old(self),
                *final(self),
                action,
                PollError::Transport(kind),
            ),
            old(self).phase != Phase::Fetching ==> action is Ignored && *final(self) == *old(self),
    {
        match self.phase {
            Phase::Fetching => self.fail_attempt(PollError::Transport(kind)),
            _ => DriverAction::Ignored,
        }
    }

    /// Takes the report that the cycle's review requests have all been
    /// handed on. The driver is then between cycles.
    pub fn drained(&mut self)
        ensures
            final(self).phase == (if old(self).phase == Phase::Filtering {
                Phase::Idle
            } else {
                old(self).phase
            }),
            final(self).batch_number == old(self).batch_number,
            final(self).client == old(self).client,
            final(self).retry == old(self).retry,
            final(self).walk == old(self).walk,
            final(self).pages == old(self).pages,
    {
        match self.phase {
            Phase::Filtering => {
                self.phase = Phase::Idle;
            },
            _ => {},
        }
    }
}

/// Sets up the cycle stream for a session: no cycle yet, and the driver idle.
pub fn poll_notifications(client: GithubClient) -> (driver: CycleDriver)
    ensures
        driver.well_formed(),
        driver.phase == Phase::Idle,
        driver.batch_number == 0,
        driver.client == client,
        driver.retry.used == 0,
        driver.pages@.len() == 0,
{
    let walk = PageWalk { next_url: None, last_modified: client.notifications_last_modified.clone() };
    CycleDriver {
        batch_number: 0,
        phase: Phase::Idle,
        client,
        retry: RetryState::new(),
        walk,
        pages: Vec::new(),
    }
}

impl GithubClient {
    /// Turns the session into the stream of its cycles.
    pub fn into_pull_request_stream(self) -> (driver: CycleDriver)
        ensures
            driver.well_formed(),
            driver.phase == Phase::Idle,
            driver.batch_number == 0,
            driver.client == self,
            driver.retry.used == 0,
            driver.pages@.len() == 0,
    {
        poll_notifications(self)
    }
}

/// A cycle whose attempts all fail in a way that may pass: after each of the
/// first five failures the driver pauses, ten milliseconds at first and twice
/// as long each time, and tries again; the sixth failure fails the cycle under
/// its own number and leaves the driver where the next cycle can begin.
pub proof fn lemma_cycle_retry_bound(
    before: CycleDriver,
    after: CycleDriver,
    action: DriverAction,
    error: PollError,
)
    requires
        before.well_formed(),
        error.retryable(),
        CycleDriver::failed_attempt(before, after, action, error),
    ensures
        before.retry.used < 5 ==> ({
            &&& after.phase == Phase::Waiting
            &&& after.retry.used == before.retry.used + 1
            &&& action matches DriverAction::Sleep(Delay::Millis(pause))
            &&& pause == retry_delay(before.retry.used as nat)
            &&& before.retry.used == 0 ==> pause == 10
            &&& before.retry.used > 0 ==> pause == 2 * retry_delay((before.retry.used - 1) as nat)
        }),
        before.retry.used == 5 ==> ({
            &&& after.phase == Phase::Failed
            &&& action matches DriverAction::Fail { batch_number, error: reported }
            &&& batch_number == before.batch_number
            &&& reported == error
        }),
        after.batch_number == before.batch_number,
{
    lemma_retry_bound(error);
    if 0 < before.retry.used < 5 {
        let previous = (before.retry.used - 1) as nat;
        assert(retry_delay(previous + 1) == 2 * retry_delay(previous));
    }
}

/// Cycle numbers start at one and grow by one from cycle to cycle.
pub proof fn lemma_cycle_numbers(n: u64)
    requires
        n < u64::MAX,
    ensures
        next_batch_number(0) == 1,
        next_batch_number(n) == n + 1,
{
}

} // verus!
