//! Absolute URLs and link resolution.
//!
//! A `WebUrl` holds what the engine reads of a parsed URL: its normalized
//! textual form (the identity key throughout the session) and its host.
//! Parsing and RFC 3986 relative resolution are done by the `url` crate
//! behind trusted wrappers; both results are functions of the input strings
//! alone, so they are named by uninterpreted spec functions, and all
//! filtering logic on top is verified.
use vstd::prelude::*;

use crate::text::contains_seq;
use crate::text::to_chars;

verus! {

/// A normalized absolute URL: its full text and its host part, if any.
#[derive(Debug)]
pub struct WebUrl {
    pub text: String,
    pub host: Option<String>,
}

/// The mathematical value of a `WebUrl`.
pub struct WebUrlV {
    pub text: Seq<char>,
    pub host: Option<Seq<char>>,
}

impl View for WebUrl {
    type V = WebUrlV;

    open spec fn view(&self) -> WebUrlV {
        WebUrlV {
            text: self.text@,
            host: match self.host {
                Some(h) => Some(h@),
                None => None,
            },
        }
    }
}

impl WebUrl {
    /// An explicit copy with the same value.
    pub fn duplicate(&self) -> (r: WebUrl)
        ensures
            r@ == self@,
    {
        let host: Option<String> = match &self.host {
            Some(h) => Some(h.clone()),
            None => None,
        };
        let r = WebUrl { text: self.text.clone(), host };
        assert(r@ == self@);
        r
    }
}

/// How a link string parses on its own.
#[derive(Debug)]
pub enum LinkParse {
    /// The string is a full absolute URL.
    Absolute(WebUrl),
    /// The string is relative and must be joined with a base URL.
    Relative,
    /// The string cannot become a URL at all.
    Invalid,
}

/// The mathematical value of a `LinkParse`.
pub enum LinkParseV {
    Absolute(WebUrlV),
    Relative,
    Invalid,
}

impl View for LinkParse {
    type V = LinkParseV;

    open spec fn view(&self) -> LinkParseV {
        match self {
            LinkParse::Absolute(u) => LinkParseV::Absolute(u@),
            LinkParse::Relative => LinkParseV::Relative,
            LinkParse::Invalid => LinkParseV::Invalid,
        }
    }
}

/// What parsing a string as an absolute URL yields; a function of the
/// string alone.
pub uninterp spec fn url_parse(s: Seq<char>) -> LinkParseV;

/// What joining a relative link onto a base URL string yields; a function
/// of the two strings alone.
pub uninterp spec fn url_join(base: Seq<char>, rel: Seq<char>) -> Option<WebUrlV>;

/// Relies on `url::Url::parse` (WHATWG URL parsing).  A parsed URL is
/// returned with its serialized form and host; the error kinds that mean
/// "this is a relative reference" (empty host, no base, cannot-be-a-base
/// base) are told apart from genuine parse failures.
#[verifier::external_body]
pub fn parse_link(s: &str) -> (r: LinkParse)
    ensures
        r@ == url_parse(s@),
{
    match url::Url::parse(s) {
        Ok(u) => LinkParse::Absolute(
            WebUrl { host: u.host_str().map(|h| h.to_string()), text: u.as_str().to_string() },
        ),
        Err(url::ParseError::EmptyHost) => LinkParse::Relative,
        Err(url::ParseError::RelativeUrlWithoutBase) => LinkParse::Relative,
        Err(url::ParseError::RelativeUrlWithCannotBeABaseBase) => LinkParse::Relative,
        Err(_) => LinkParse::Invalid,
    }
}

/// Relies on `url::Url::join` after `url::Url::parse` of the base: RFC 3986
/// relative resolution against the base URL; the outcome depends on the two
/// strings alone.
#[verifier::external_body]
pub fn join_link(base: &str, rel: &str) -> (r: Option<WebUrl>)
    ensures
        match r {
            Some(u) => url_join(base@, rel@) == Some(u@),
            None => url_join(base@, rel@) is None,
        },
{
    match url::Url::parse(base) {
        Ok(b) => match b.join(rel) {
            Ok(u) => Some(
                WebUrl { host: u.host_str().map(|h| h.to_string()), text: u.as_str().to_string() },
            ),
            Err(_) => None,
        },
        Err(_) => None,
    }
}

/// The full URL that a link found on a page denotes: the link itself when
/// it is absolute, the link joined onto the page's URL when it is relative,
/// and nothing when it is empty or unusable.
pub open spec fn resolve_spec(link: Seq<char>, base: Seq<char>) -> Option<WebUrlV> {
    if link.len() == 0 {
        None
    } else {
        match url_parse(link) {
            LinkParseV::Absolute(u) => Some(u),
            LinkParseV::Relative => url_join(base, link),
            LinkParseV::Invalid => None,
        }
    }
}

/// Get the full link to a sub-page or file, given a page's full URL.
pub fn get_full_link(link: &str, page_url: &WebUrl) -> (r: Option<WebUrl>)
    ensures
        match r {
            Some(u) => resolve_spec(link@, page_url@.text) == Some(u@),
            None => resolve_spec(link@, page_url@.text) is None,
        },
{
    if link.is_empty() {
        return None;
    }
    match parse_link(link) {
        LinkParse::Absolute(u) => Some(u),
        LinkParse::Relative => join_link(page_url.text.as_str(), link),
        LinkParse::Invalid => None,
    }
}

/// Two URLs are on conflicting hosts when both name a host and the hosts
/// differ; a URL without a host never conflicts.
pub open spec fn hosts_differ(a: WebUrlV, b: WebUrlV) -> bool {
    a.host is Some && b.host is Some && a.host != b.host
}

/// Whether `page` may be followed from a session seeded at `seed`: only a
/// page on a provably different host is refused.
pub fn allowed_host(page: &WebUrl, seed: &WebUrl) -> (r: bool)
    ensures
        r == !hosts_differ(page@, seed@),
{
    match &page.host {
        Some(a) => match &seed.host {
            Some(b) => {
                let eq: bool = a.eq(b);
                assert(page@.host == Some(a@) && seed@.host == Some(b@));
                eq
            },
            None => true,
        },
        None => true,
    }
}

/// Is any of the blacklist entries a substring of `url_text`?
pub open spec fn blacklisted_spec(url_text: Seq<char>, blacklist: Seq<Seq<char>>) -> bool {
    exists|k: int| 0 <= k < blacklist.len() && contains_seq(url_text, blacklist[k])
}

/// Whether `url_text` contains any entry of `blacklist`.
pub fn blacklisted(url_text: &str, blacklist: &Vec<String>) -> (r: bool)
    ensures
        r == blacklisted_spec(url_text@, blacklist.deep_view()),
{
    let u = to_chars(url_text);
    let n: usize = blacklist.len();
    let mut k: usize = 0;
    while k < n
        invariant
            n == blacklist@.len(),
            k <= n,
            u@ == url_text@,
            blacklist.deep_view().len() == n,
            forall|j: int| 0 <= j < n ==> blacklist.deep_view()[j] == blacklist@[j]@,
            forall|j: int| 0 <= j < k ==> !contains_seq(url_text@, blacklist.deep_view()[j]),
        decreases n - k,
    {
        let entry = to_chars(blacklist[k].as_str());
        if crate::text::contains_sub(&u, &entry) {
            assert(contains_seq(url_text@, blacklist.deep_view()[k as int]));
            return true;
        }
        k = k + 1;
    }
    assert(!blacklisted_spec(url_text@, blacklist.deep_view()));
    false
}

} // verus!
