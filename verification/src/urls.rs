//! Validation of URL literals through the `url` crate.

use vstd::prelude::*;

verus! {

/// What `url::Url::parse` makes of a string: `None` when the string is not
/// an absolute URL, otherwise the parsed URL's normalized serialization.
/// The result depends on the input characters alone.
pub uninterp spec fn url_parse(s: Seq<char>) -> Option<Seq<char>>;

/// Relies on `url::Url::parse` for recognizing an absolute URL, and on
/// `url::Url::as_str` for handing back the normalized serialization the
/// parser stored.
#[verifier::external_body]
pub fn parse_url(s: &str) -> (r: Option<String>)
    ensures
        r is Some <==> url_parse(s@) is Some,
        r matches Some(u) ==> url_parse(s@) matches Some(n) && u@ == n,
{
    match s.parse::<url::Url>() {
        Ok(u) => Some(String::from(u.as_str())),
        Err(_) => None,
    }
}

} // verus!
