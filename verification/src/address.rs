//! Whether a text is an address that the web view can be sent to.

use vstd::prelude::*;

verus! {

/// Whether the `url` crate reads `text` as an absolute URL. What the crate
/// accepts is the URL Standard's parser, and is not restated here.
pub uninterp spec fn url_parses(text: Seq<char>) -> bool;

/// Calls `url::Url::parse` on `text` and says whether it gave a URL. The
/// parser reads nothing but `text`: the same text gets the same answer every
/// time, which is all that this contract claims.
#[verifier::external_body]
pub(crate) fn is_url(text: &str) -> (ok: bool)
    ensures
        ok == url_parses(text@),
{
    url::Url::parse(text).is_ok()
}

} // verus!
