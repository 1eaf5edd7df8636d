//! Response headers, as `hyper` reads them.
//!
//! A header arrives as its raw lines, one byte string per occurrence of the
//! header in the response; no line means the header is absent.

use hyper::header::{Header, HttpDate, Link, Raw};
use vstd::prelude::*;

verus! {

/// One value of a `Link` header: its target and its relation types, each by
/// its registered lower-case name.
#[derive(Debug, Clone)]
pub struct LinkEntry {
    pub link: String,
    pub rel: Option<Vec<String>>,
}

/// A `Link` value as mathematical data.
pub ghost struct LinkEntryModel {
    pub link: Seq<char>,
    pub rel: Option<Seq<Seq<char>>>,
}

impl DeepView for LinkEntry {
    type V = LinkEntryModel;

    open spec fn deep_view(&self) -> LinkEntryModel {
        self@
    }
}

impl View for LinkEntry {
    type V = LinkEntryModel;

    open spec fn view(&self) -> LinkEntryModel {
        LinkEntryModel {
            link: self.link@,
            rel: match self.rel {
                Some(names) => Some(names.deep_view()),
                None => None,
            },
        }
    }
}

impl LinkEntryModel {
    /// Whether the value points at the next page.
    pub open spec fn is_next(self) -> bool {
        self.rel matches Some(names) && names.contains("next"@)
    }
}

/// The values of a `Link` header, if its lines parse.
pub uninterp spec fn link_values(lines: Seq<Seq<u8>>) -> Option<Seq<LinkEntryModel>>;

/// The number that a numeric header holds, if it has exactly one line and
/// that line parses.
pub uninterp spec fn numeric_header(lines: Seq<Seq<u8>>) -> Option<u64>;

/// The date that a date header holds, in the fixed-length form HTTP prefers,
/// if it has exactly one line and that line parses.
pub uninterp spec fn date_header(lines: Seq<Seq<u8>>) -> Option<Seq<char>>;

/// `<hyper::header::Link as Header>::parse_header`, then `Link::values` with
/// `LinkValue::link`, `LinkValue::rel` and the `Display` of each relation
/// type: parses every line as a list of link values and joins the lists.
/// `None` when there is no line or a line does not parse.
#[verifier::external_body]
pub(crate) fn parse_link(lines: &Vec<Vec<u8>>) -> (r: Option<Vec<LinkEntry>>)
    ensures
        r.is_some() <==> link_values(lines.deep_view()).is_some(),
        r matches Some(entries) ==> link_values(lines.deep_view()) == Some(entries.deep_view()),
{
    let parsed = Link::parse_header(&Raw::from(lines.clone())).ok()?;
    Some(
        parsed.values().iter().map(
            |v| LinkEntry {
                link: v.link().to_owned(),
                rel: v.rel().map(|names| names.iter().map(|name| name.to_string()).collect()),
            },
        ).collect(),
    )
}

/// `hyper::header::parsing::from_one_raw_str::<u64>`: the header must have
/// exactly one line, which is trimmed and read as a decimal number.
#[verifier::external_body]
pub(crate) fn parse_numeric(lines: &Vec<Vec<u8>>) -> (r: Option<u64>)
    ensures
        r == numeric_header(lines.deep_view()),
{
    hyper::header::parsing::from_one_raw_str::<u64>(&Raw::from(lines.clone())).ok()
}

/// `hyper::header::parsing::from_one_raw_str::<HttpDate>`, then the date's
/// `Display`: the header must have exactly one line holding a date in one of
/// the three forms HTTP allows; the result is that date in the preferred form.
#[verifier::external_body]
pub(crate) fn parse_date(lines: &Vec<Vec<u8>>) -> (r: Option<String>)
    ensures
        r.is_some() <==> date_header(lines.deep_view()).is_some(),
        r matches Some(date) ==> date_header(lines.deep_view()) == Some(date@),
{
    hyper::header::parsing::from_one_raw_str::<HttpDate>(&Raw::from(lines.clone())).ok().map(
        |date| date.to_string(),
    )
}

} // verus!
