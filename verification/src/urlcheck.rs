//! The URL allow-list: the security boundary in front of the
//! retrieval stage.
//!
//! Nothing else keeps the fetch stage away from arbitrary internet
//! content, so the check is an exact string match on the parsed host —
//! never a substring check — and it fails closed on any parse error.

use vstd::prelude::*;
use crate::text::str_eq;

verus! {

/// The domain of `s` as the URL parser reads it: `None` when `s` does
/// not parse as a URL or its host is not a domain name; a function of
/// the text alone.
pub uninterp spec fn url_domain(s: Seq<char>) -> Option<Seq<char>>;

/// Relies on url::Url::parse and url::Url::domain: the parsed domain
/// is a function of the URL text alone; a parse failure or a host that
/// is no domain name gives `None`.
#[verifier::external_body]
fn parse_url_domain(s: &str) -> (r: Option<String>)
    ensures
        match r {
            Option::Some(d) => url_domain(s@) == Option::Some(d@),
            Option::None => url_domain(s@) is None,
        },
{
    match url::Url::parse(s) {
        Ok(u) => u.domain().map(|d| d.to_string()),
        Err(_) => None,
    }
}

/// A domain on the fixed allow-list: the encyclopedia domain and the
/// psychology-information domain with its "www." variant.
pub open spec fn is_listed_domain(d: Seq<char>) -> bool {
    d == "en.wikipedia.org"@ || d == "www.psychologytoday.com"@ || d == "psychologytoday.com"@
}

/// A URL passes the allow-list: it parses, and its exact domain is
/// listed.
pub open spec fn whitelisted_spec(url: Seq<char>) -> bool {
    match url_domain(url) {
        Option::Some(d) => is_listed_domain(d),
        Option::None => false,
    }
}

/// URL allow-list validator.
pub struct UrlValidator {}

impl UrlValidator {
    pub fn new() -> (r: UrlValidator) {
        UrlValidator {  }
    }

    /// True iff the URL parses and its domain matches the allow-list
    /// exactly (no subdomain wildcarding).  Fails closed: any parse
    /// error or missing domain gives `false`.
    pub fn is_whitelisted(&self, url_str: &str) -> (r: bool)
        ensures
            r == whitelisted_spec(url_str@),
    {
        match parse_url_domain(url_str) {
            Option::Some(d) => str_eq(d.as_str(), "en.wikipedia.org") || str_eq(
                d.as_str(),
                "www.psychologytoday.com",
            ) || str_eq(d.as_str(), "psychologytoday.com"),
            Option::None => false,
        }
    }

    /// The parsed domain of a URL, for reporting.
    pub fn get_domain(&self, url_str: &str) -> (r: Option<String>)
        ensures
            match r {
                Option::Some(d) => url_domain(url_str@) == Option::Some(d@),
                Option::None => url_domain(url_str@) is None,
            },
    {
        parse_url_domain(url_str)
    }
}

} // verus!
