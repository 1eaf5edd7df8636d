//! The page fetcher's pure half: from a response, as it came off the wire, to
//! a typed page of notifications.

use vstd::prelude::*;
use crate::error::PollError;
use crate::headers::{
    date_header, link_values, numeric_header, parse_date, parse_link, parse_numeric, LinkEntry,
    LinkEntryModel,
};
use crate::json::{elements, json_document, json_elements, parse_document};
use crate::notification::{notification_of, Notification, NotificationModel};
use crate::text::same_text;

verus! {

/// A response of the feed source: its status, the raw lines of the three
/// headers the pipeline reads, and its body.
#[derive(Debug, Clone)]
pub struct HttpResponse {
    pub status: u16,
    pub link: Vec<Vec<u8>>,
    pub last_modified: Vec<Vec<u8>>,
    pub poll_interval: Vec<Vec<u8>>,
    pub body: Vec<u8>,
}

/// One page of the feed.
#[derive(Debug, Clone)]
pub struct NotificationsResponse {
    pub notifications: Vec<Notification>,
    pub next_page: Option<String>,
    pub last_modified: Option<String>,
    pub poll_interval: Option<u64>,
}

/// A page as mathematical data.
pub ghost struct PageModel {
    pub notifications: Seq<NotificationModel>,
    pub next_page: Option<Seq<char>>,
    pub last_modified: Option<Seq<char>>,
    pub poll_interval: Option<u64>,
}

/// An optional string as an optional character sequence.
pub open spec fn text_model(text: Option<String>) -> Option<Seq<char>> {
    match text {
        Some(s) => Some(s@),
        None => None,
    }
}

impl DeepView for NotificationsResponse {
    type V = PageModel;

    open spec fn deep_view(&self) -> PageModel {
        self@
    }
}

impl View for NotificationsResponse {
    type V = PageModel;

    open spec fn view(&self) -> PageModel {
        PageModel {
            notifications: self.notifications.deep_view(),
            next_page: text_model(self.next_page),
            last_modified: text_model(self.last_modified),
            poll_interval: self.poll_interval,
        }
    }
}

/// The target of the first link value that carries the `next` relation.
pub open spec fn first_next(entries: Seq<LinkEntryModel>) -> Option<Seq<char>>
    decreases entries.len(),
{
    if entries.len() == 0 {
        None
    } else if entries[0].is_next() {
        Some(entries[0].link)
    } else {
        first_next(entries.drop_first())
    }
}

/// The continuation URL that a `Link` header announces.
pub open spec fn next_page_of(lines: Seq<Seq<u8>>) -> Option<Seq<char>> {
    match link_values(lines) {
        Some(entries) => first_next(entries),
        None => None,
    }
}

/// The notifications among the elements of a page body, in order. Elements
/// that hold no notification are left out.
pub open spec fn decoded_items(elems: Seq<serde_json::Value>) -> Seq<NotificationModel>
    decreases elems.len(),
{
    if elems.len() == 0 {
        Seq::empty()
    } else {
        match notification_of(elems.last()) {
            Some(n) => decoded_items(elems.drop_last()).push(n),
            None => decoded_items(elems.drop_last()),
        }
    }
}

/// The notifications of a page body. The body must be a JSON array.
pub open spec fn body_items(body: Seq<u8>) -> Option<Seq<NotificationModel>> {
    match json_document(body) {
        Some(document) => match json_elements(document) {
            Some(elems) => Some(decoded_items(elems)),
            None => None,
        },
        None => None,
    }
}

/// The page that a response with status 304 stands for: nothing new, no
/// continuation, no validator, but possibly a wait interval.
pub open spec fn not_modified_page(poll_interval: Option<u64>) -> PageModel {
    PageModel {
        notifications: Seq::empty(),
        next_page: None,
        last_modified: None,
        poll_interval,
    }
}

fn names_next(names: &Vec<String>) -> (r: bool)
    ensures
        r == names.deep_view().contains("next"@),
{
    let mut j: usize = 0;
    while j < names.len()
        invariant
            j <= names.len(),
            forall|k: int| 0 <= k < j ==> names.deep_view()[k] != "next"@,
        decreases names.len() - j,
    {
        if same_text(names[j].as_str(), "next") {
            assert(names.deep_view()[j as int] == "next"@);
            return true;
        }
        j += 1;
    }
    false
}

fn entry_is_next(entry: &LinkEntry) -> (r: bool)
    ensures
        r == entry@.is_next(),
{
    match &entry.rel {
        Some(names) => names_next(names),
        None => false,
    }
}

/// Picks the continuation URL out of the values of a `Link` header: the
/// target of the first value whose relation types include `next`.
pub fn next_page_url(entries: &Vec<LinkEntry>) -> (r: Option<String>)
    ensures
        text_model(r) == first_next(entries.deep_view()),
{
    let ghost all = entries.deep_view();
    let mut i: usize = 0;
    proof {
        assert(all.skip(0) =~= all);
    }
    while i < entries.len()
        invariant
            i <= entries.len(),
            all == entries.deep_view(),
            first_next(all) == first_next(all.skip(i as int)),
        decreases entries.len() - i,
    {
        proof {
            assert(all.skip(i as int).drop_first() =~= all.skip(i as int + 1));
            assert(all.skip(i as int)[0] == entries[i as int]@);
        }
        if entry_is_next(&entries[i]) {
            return Some(entries[i].link.clone());
        }
        i += 1;
    }
    None
}

/// Decodes the elements of a page body one by one and keeps those that hold
/// a notification.
pub fn decode_items(elems: &Vec<serde_json::Value>) -> (items: Vec<Notification>)
    ensures
        items.deep_view() == decoded_items(elems@),
{
    let mut items: Vec<Notification> = Vec::new();
    let mut i: usize = 0;
    while i < elems.len()
        invariant
            i <= elems.len(),
            items.deep_view() =~= decoded_items(elems@.take(i as int)),
        decreases elems.len() - i,
    {
        proof {
            assert(elems@.take(i as int + 1).drop_last() =~= elems@.take(i as int));
            assert(elems@.take(i as int + 1).last() == elems@[i as int]);
        }
        let ghost before = items.deep_view();
        match Notification::from_value(&elems[i]) {
            Some(n) => {
                items.push(n);
                assert(items.deep_view() =~= before.push(n@));
            },
            None => {},
        }
        i += 1;
    }
    proof {
        assert(elems@.take(elems.len() as int) =~= elems@);
    }
    items
}

/// Decodes a page body.
pub fn parse_body(body: &[u8]) -> (r: Result<Vec<Notification>, PollError>)
    ensures
        match body_items(body@) {
            Some(items) => r matches Ok(found) && found.deep_view() == items,
            None => r == Err::<Vec<Notification>, PollError>(PollError::Parse),
        },
{
    match parse_document(body) {
        Ok(document) => match elements(&document) {
            Some(elems) => Ok(decode_items(elems)),
            None => Err(PollError::Parse),
        },
        Err(_) => Err(PollError::Parse),
    }
}

/// Reads the wait interval the server suggests.
pub fn parse_poll_interval(response: &HttpResponse) -> (r: Option<u64>)
    ensures
        r == numeric_header(response.poll_interval.deep_view()),
{
    parse_numeric(&response.poll_interval)
}

/// Reads the cache validator of a page.
pub fn parse_last_modified(response: &HttpResponse) -> (r: Option<String>)
    ensures
        text_model(r) == date_header(response.last_modified.deep_view()),
{
    parse_date(&response.last_modified)
}

/// The page for a response that says nothing changed.
pub fn not_modified_response(response: &HttpResponse) -> (page: NotificationsResponse)
    ensures
        page@ == not_modified_page(numeric_header(response.poll_interval.deep_view())),
{
    let page = NotificationsResponse {
        notifications: Vec::new(),
        next_page: None,
        last_modified: None,
        poll_interval: parse_poll_interval(response),
    };
    assert(page.notifications.deep_view() =~= Seq::empty());
    page
}

/// The page that a successful response holds, if its body decodes.
pub open spec fn fresh_page(response: HttpResponse) -> Option<PageModel> {
    match body_items(response.body@) {
        Some(items) => Some(
            PageModel {
                notifications: items,
                next_page: next_page_of(response.link.deep_view()),
                last_modified: date_header(response.last_modified.deep_view()),
                poll_interval: numeric_header(response.poll_interval.deep_view()),
            },
        ),
        None => None,
    }
}

/// Reads the page out of a response with status 200.
pub fn parse_response(response: &HttpResponse) -> (r: Result<NotificationsResponse, PollError>)
    ensures
        match fresh_page(*response) {
            Some(page) => r matches Ok(found) && found@ == page,
            None => r matches Err(e) && e == PollError::Parse,
        },
{
    let next_page = match parse_link(&response.link) {
        Some(entries) => next_page_url(&entries),
        None => None,
    };
    let last_modified = parse_last_modified(response);
    let poll_interval = parse_poll_interval(response);
    match parse_body(response.body.as_slice()) {
        Ok(notifications) => Ok(
            NotificationsResponse { notifications, next_page, last_modified, poll_interval },
        ),
        Err(e) => Err(e),
    }
}

/// What a response means, by its status.
pub open spec fn page_of(response: HttpResponse) -> Result<PageModel, PollError> {
    if response.status == 200 {
        match fresh_page(response) {
            Some(page) => Ok(page),
            None => Err(PollError::Parse),
        }
    } else if response.status == 304 {
        Ok(not_modified_page(numeric_header(response.poll_interval.deep_view())))
    } else {
        Err(PollError::UnrecognizedStatus(response.status))
    }
}

/// Maps a response to a page: status 200 is a fresh page, status 304 an
/// unchanged feed, and every other status a failure of the cycle.
pub fn from_http(response: &HttpResponse) -> (r: Result<NotificationsResponse, PollError>)
    ensures
        match page_of(*response) {
            Ok(page) => r matches Ok(found) && found@ == page,
            Err(error) => r matches Err(e) && e == error,
        },
{
    if response.status == 200 {
        parse_response(response)
    } else if response.status == 304 {
        Ok(not_modified_response(response))
    } else {
        Err(PollError::UnrecognizedStatus(response.status))
    }
}

impl NotificationsResponse {
    /// The page that a response holds; see [`from_http`].
    pub fn from_response(response: &HttpResponse) -> (r: Result<NotificationsResponse, PollError>)
        ensures
            match page_of(*response) {
                Ok(page) => r matches Ok(found) && found@ == page,
                Err(error) => r matches Err(e) && e == error,
            },
    {
        from_http(response)
    }
}

} // verus!
