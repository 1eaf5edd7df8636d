//! The polling session: its state from one cycle to the next, the walk over
//! the pages of one cycle, and the step from a cycle's pages to its review
//! requests.

use vstd::prelude::*;
use crate::error::PollError;
use crate::notification::{
    Notification, NotificationModel, Repository, ReviewRequest, ReviewRequestModel, Subject,
};
use crate::notifications_response::{text_model, NotificationsResponse, PageModel};
use crate::urls::{join_url, url_join};
use vstd::string::StringExecFns;

verus! {

/// The state a polling session carries from cycle to cycle.
#[derive(Debug, Clone)]
pub struct GithubClient {
    /// Seconds the server asked to wait before the next cycle, not yet waited.
    pub last_poll_interval: Option<u64>,
    /// The cache validator sent with every request of the next cycle.
    pub notifications_last_modified: String,
    /// The first page of the feed.
    pub notifications_url: String,
}

/// A polling session as mathematical data.
pub ghost struct ClientModel {
    pub last_poll_interval: Option<u64>,
    pub notifications_last_modified: Seq<char>,
    pub notifications_url: Seq<char>,
}

impl View for GithubClient {
    type V = ClientModel;

    open spec fn view(&self) -> ClientModel {
        ClientModel {
            last_poll_interval: self.last_poll_interval,
            notifications_last_modified: self.notifications_last_modified@,
            notifications_url: self.notifications_url@,
        }
    }
}

/// The walk over the pages of one cycle: where to go next, and the validator
/// that every request of the walk carries.
#[derive(Debug, Clone)]
pub struct PageWalk {
    pub next_url: Option<String>,
    pub last_modified: String,
}

/// The notifications of a run of pages, page after page.
pub open spec fn all_items(pages: Seq<PageModel>) -> Seq<NotificationModel>
    decreases pages.len(),
{
    if pages.len() == 0 {
        Seq::empty()
    } else {
        all_items(pages.drop_last()) + pages.last().notifications
    }
}

/// The review requests among some notifications, in their order.
pub open spec fn review_requests_of(items: Seq<NotificationModel>) -> Seq<ReviewRequestModel>
    decreases items.len(),
{
    if items.len() == 0 {
        Seq::empty()
    } else {
        match items.last().to_review_request() {
            Some(request) => review_requests_of(items.drop_last()).push(request),
            None => review_requests_of(items.drop_last()),
        }
    }
}

/// The pages a walk fetches when the feed would serve `served`, one page per
/// request: it goes on while it wants a page and stops after the first page
/// that names no continuation.
pub open spec fn walked(wants: bool, served: Seq<PageModel>) -> Seq<PageModel>
    decreases served.len(),
{
    if !wants || served.len() == 0 {
        Seq::empty()
    } else {
        seq![served[0]] + walked(served[0].next_page.is_some(), served.drop_first())
    }
}

/// The session after a cycle whose first page is `first`: the validator and
/// the wait interval are those of the page, each kept as it was where the
/// page brought none.
pub open spec fn advanced(client: ClientModel, first: PageModel) -> ClientModel {
    ClientModel {
        last_poll_interval: match first.poll_interval {
            Some(seconds) => Some(seconds),
            None => client.last_poll_interval,
        },
        notifications_last_modified: match first.last_modified {
            Some(validator) => validator,
            None => client.notifications_last_modified,
        },
        notifications_url: client.notifications_url,
    }
}

impl PageWalk {
    /// The URL of the page to fetch next; `None` once the walk is over.
    pub fn next_request(&self) -> (r: Option<String>)
        ensures
            text_model(r) == text_model(self.next_url),
    {
        match &self.next_url {
            Some(url) => Some(url.clone()),
            None => None,
        }
    }

    /// Takes in a fetched page: the walk continues at the page's
    /// continuation URL, or ends if it has none.
    pub fn accept(&mut self, page: &NotificationsResponse)
        ensures
            text_model(final(self).next_url) == page@.next_page,
            final(self).last_modified@ == old(self).last_modified@,
    {
        self.next_url = match &page.next_page {
            Some(url) => Some(url.clone()),
            None => None,
        };
    }
}

/// Walks the pages that the feed would serve in this order, and returns those
/// the walk fetches.
pub fn walk_pages(walk: PageWalk, served: Vec<NotificationsResponse>) -> (pages: Vec<
    NotificationsResponse,
>)
    ensures
        pages.deep_view() == walked(walk.next_url.is_some(), served.deep_view()),
{
    let ghost all = served.deep_view();
    let ghost wanted = walk.next_url.is_some();
    let mut walk = walk;
    let mut served = served;
    let mut i: usize = 0;
    proof {
        assert(all.skip(0) =~= all);
        assert(all.take(0) + walked(wanted, all) =~= walked(wanted, all));
    }
    while i < served.len() && walk.next_url.is_some()
        invariant
            i <= served.len(),
            all == served.deep_view(),
            walked(wanted, all) == all.take(i as int) + walked(
                walk.next_url.is_some(),
                all.skip(i as int),
            ),
        decreases served.len() - i,
    {
        proof {
            assert(all.skip(i as int).drop_first() =~= all.skip(i as int + 1));
            assert(all.skip(i as int)[0] == all[i as int]);
            assert(all.take(i as int) + seq![all[i as int]] =~= all.take(i as int + 1));
        }
        walk.accept(&served[i]);
        proof {
            let rest = walked(all[i as int].next_page.is_some(), all.skip(i as int + 1));
            assert(all.take(i as int) + (seq![all[i as int]] + rest) =~= all.take(i as int + 1)
                + rest);
        }
        i += 1;
    }
    proof {
        assert(walked(walk.next_url.is_some(), all.skip(i as int)) =~= Seq::empty());
        assert(all.take(i as int) + Seq::<PageModel>::empty() =~= all.take(i as int));
    }
    served.truncate(i);
    assert(served.deep_view() =~= all.take(i as int));
    served
}

/// A walk over a chain of pages in which every page but the last names a
/// continuation fetches the whole chain and nothing after it, so the cycle
/// sees exactly the notifications of all its pages, in order.
pub proof fn lemma_walk_fetches_whole_chain(chain: Seq<PageModel>, more: Seq<PageModel>)
    requires
        chain.len() >= 1,
        forall|i: int| 0 <= i < chain.len() - 1 ==> (#[trigger] chain[i]).next_page.is_some(),
        chain.last().next_page.is_none(),
    ensures
        walked(true, chain + more) == chain,
        all_items(walked(true, chain + more)) == all_items(chain),
    decreases chain.len(),
{
    let served = chain + more;
    assert(served[0] == chain[0]);
    if chain.len() == 1 {
        assert(walked(false, served.drop_first()) =~= Seq::empty());
        assert(seq![served[0]] + Seq::<PageModel>::empty() =~= chain);
    } else {
        let rest = chain.drop_first();
        assert(served.drop_first() =~= rest + more);
        assert(rest.last() == chain.last());
        assert forall|i: int| 0 <= i < rest.len() - 1 implies (#[trigger] rest[i]).next_page.is_some() by {
            assert(rest[i] == chain[i + 1]);
        }
        lemma_walk_fetches_whole_chain(rest, more);
        assert(seq![chain[0]] + rest =~= chain);
    }
}

fn pick(n: &Notification) -> (r: Option<ReviewRequest>)
    ensures
        r.deep_view() == n@.to_review_request(),
{
    ReviewRequest::from_notification(
        Notification {
            reason: n.reason.clone(),
            subject: Subject {
                _type: n.subject._type.clone(),
                title: n.subject.title.clone(),
                url: n.subject.url.clone(),
            },
            repository: Repository { name: n.repository.name.clone() },
        },
    )
}

/// Filters the notifications of a cycle's pages down to its review requests,
/// keeping page order and the order within each page.
pub fn review_requests(pages: &Vec<NotificationsResponse>) -> (requests: Vec<ReviewRequest>)
    ensures
        requests.deep_view() == review_requests_of(all_items(pages.deep_view())),
{
    let ghost all = pages.deep_view();
    let mut requests: Vec<ReviewRequest> = Vec::new();
    let mut i: usize = 0;
    while i < pages.len()
        invariant
            i <= pages.len(),
            all == pages.deep_view(),
            requests.deep_view() =~= review_requests_of(all_items(all.take(i as int))),
        decreases pages.len() - i,
    {
        let page = &pages[i];
        let ghost done = all_items(all.take(i as int));
        let ghost these = page@.notifications;
        let mut j: usize = 0;
        proof {
            assert(these.take(0) =~= Seq::empty());
            assert(done + these.take(0) =~= done);
        }
        while j < page.notifications.len()
            invariant
                j <= page.notifications.len(),
                these == page.notifications.deep_view(),
                requests.deep_view() =~= review_requests_of(done + these.take(j as int)),
            decreases page.notifications.len() - j,
        {
            proof {
                let upto = done + these.take(j as int + 1);
                assert(upto.drop_last() =~= done + these.take(j as int));
                assert(upto.last() == page.notifications[j as int]@);
            }
            let ghost before = requests.deep_view();
            match pick(&page.notifications[j]) {
                Some(request) => {
                    requests.push(request);
                    assert(requests.deep_view() =~= before.push(request@));
                },
                None => {},
            }
            j += 1;
        }
        proof {
            assert(these.take(j as int) =~= these);
            assert(all.take(i as int + 1).drop_last() =~= all.take(i as int));
            assert(all.take(i as int + 1).last() == all[i as int]);
            assert(all[i as int] == page@);
        }
        i += 1;
    }
    proof {
        assert(all.take(pages.len() as int) =~= all);
    }
    requests
}

/// The value of the authorization header that the feed source expects: the
/// word `token`, a space, and the token.
pub fn default_headers(github_token: &str) -> (value: String)
    ensures
        value@ == "token "@ + github_token@,
{
    let mut value = "token ".to_owned();
    value.append(github_token);
    value
}

impl GithubClient {
    /// Starts a session against the feed of a host, with the validator of a
    /// cold start. Fails if the feed's URL cannot be formed from the host.
    pub fn new(host: &str, base_time: String) -> (r: Option<GithubClient>)
        ensures
            match url_join(host@, "notifications?all=true"@) {
                Some(url) => r matches Some(client) && client@ == (ClientModel {
                    last_poll_interval: None,
                    notifications_last_modified: base_time@,
                    notifications_url: url,
                }),
                None => r.is_none(),
            },
    {
        match join_url(host, "notifications?all=true") {
            Some(url) => Some(
                GithubClient {
                    last_poll_interval: None,
                    notifications_last_modified: base_time,
                    notifications_url: url,
                },
            ),
            None => None,
        }
    }

    /// How many seconds to wait before the next cycle may send a request;
    /// `None` when no wait is pending.
    pub fn wait_poll_interval(&self) -> (r: Option<u64>)
        ensures
            r == self.last_poll_interval,
    {
        self.last_poll_interval
    }

    /// Marks the pending wait as done.
    pub fn clear_poll_interval(&mut self)
        ensures
            final(self)@ == (ClientModel { last_poll_interval: None, ..old(self)@ }),
    {
        self.last_poll_interval = None;
    }

    /// Begins the walk over the pages of a cycle at the first page of the feed.
    pub fn current_notifications(&self) -> (walk: PageWalk)
        ensures
            text_model(walk.next_url) == Some(self@.notifications_url),
            walk.last_modified@ == self@.notifications_last_modified,
    {
        PageWalk {
            next_url: Some(self.notifications_url.clone()),
            last_modified: self.notifications_last_modified.clone(),
        }
    }

    /// Closes a cycle over the pages it fetched: the review requests of all
    /// pages in order, and the session for the next cycle, which takes its
    /// validator and wait interval from the first page. A cycle without any
    /// page has no metadata to go on and fails.
    pub fn next_review_requests(&self, pages: &Vec<NotificationsResponse>) -> (r: Result<
        (Vec<ReviewRequest>, GithubClient),
        PollError,
    >)
        ensures
            pages.len() == 0 ==> (r matches Err(e) && e == PollError::Parse),
            pages.len() > 0 ==> (r matches Ok((requests, client)) && requests.deep_view()
                == review_requests_of(all_items(pages.deep_view())) && client@ == advanced(
                self@,
                pages[0]@,
            )),
    {
        if pages.len() == 0 {
            return Err(PollError::Parse);
        }
        let first = &pages[0];
        let notifications_last_modified = match &first.last_modified {
            Some(validator) => validator.clone(),
            None => self.notifications_last_modified.clone(),
        };
        let last_poll_interval = match first.poll_interval {
            Some(seconds) => Some(seconds),
            None => self.last_poll_interval,
        };
        let client = GithubClient {
            last_poll_interval,
            notifications_last_modified,
            notifications_url: self.notifications_url.clone(),
        };
        Ok((review_requests(pages), client))
    }
}

} // verus!
