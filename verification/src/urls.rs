//! URL resolution, as the `url` crate does it.

use vstd::prelude::*;

verus! {

/// The absolute URL that a reference resolves to against a base, if the base
/// is an absolute URL and the reference can be resolved against it.
pub uninterp spec fn url_join(base: Seq<char>, reference: Seq<char>) -> Option<Seq<char>>;

/// `url::Url::parse` on the base, then `Url::join` with the reference, then
/// the URL's text: resolves a reference the way a browser would. `None` when
/// the base does not parse or the reference cannot be resolved.
#[verifier::external_body]
pub(crate) fn join_url(base: &str, reference: &str) -> (r: Option<String>)
    ensures
        r.is_some() <==> url_join(base@, reference@).is_some(),
        r matches Some(joined) ==> url_join(base@, reference@) == Some(joined@),
{
    url::Url::parse(base).ok()?.join(reference).ok().map(String::from)
}

} // verus!
