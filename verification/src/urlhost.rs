//! URLs as this library reads them: the text, and the host component that the
//! allow-list is matched against.

use vstd::prelude::*;

verus! {

/// The host component of a string read as an absolute URL: `None` where the
/// string does not parse as one, `Some(h)` where it parses with host `h`
/// (itself absent for host-less URLs). A function of the text alone; nothing
/// more is assumed of it.
pub uninterp spec fn url_host_of(s: Seq<char>) -> Option<Option<Seq<char>>>;

/// View of an optional owned string.
pub open spec fn opt_str_view(s: Option<String>) -> Option<Seq<char>> {
    match s {
        Some(h) => Some(h@),
        None => None,
    }
}

/// Relies on url::Url::parse and url::Url::host_str: whether a string parses
/// as an absolute URL, and which host component it carries, are functions of
/// the string alone.
#[verifier::external_body]
fn parse_host_raw(s: &str) -> (r: Option<Option<String>>)
    ensures
        r is Some <==> url_host_of(s@) is Some,
        r matches Some(h) ==> url_host_of(s@) == Some(opt_str_view(h)),
{
    match url::Url::parse(s) {
        Ok(u) => Some(u.host_str().map(|h| h.to_owned())),
        Err(_) => None,
    }
}

/// A validated absolute URL: its text, to hand to the fetcher, and its host
/// component, to hold against the allow-list.
pub struct ParsedUrl {
    text: String,
    host: Option<String>,
}

impl ParsedUrl {
    pub closed spec fn spec_text(&self) -> Seq<char> {
        self.text@
    }

    pub closed spec fn spec_host(&self) -> Option<Seq<char>> {
        opt_str_view(self.host)
    }

    /// The recorded host is the one the text parses to.
    pub open spec fn wf(&self) -> bool {
        url_host_of(self.spec_text()) == Some(self.spec_host())
    }

    /// Reads a request's URL parameter: `None` exactly where the text is not
    /// an absolute URL.
    pub fn parse(s: &str) -> (r: Option<ParsedUrl>)
        ensures
            r is Some <==> url_host_of(s@) is Some,
            r matches Some(u) ==> u.wf() && u.spec_text() == s@ && url_host_of(s@) == Some(
                u.spec_host(),
            ),
    {
        match parse_host_raw(s) {
            Some(host) => Some(ParsedUrl { text: s.to_owned(), host }),
            None => None,
        }
    }

    pub fn text(&self) -> (r: &str)
        ensures
            r@ == self.spec_text(),
    {
        self.text.as_str()
    }

    pub fn host_ref(&self) -> (r: Option<&String>)
        ensures
            match r {
                Some(h) => self.spec_host() == Some(h@),
                None => self.spec_host() is None,
            },
    {
        self.host.as_ref()
    }
}

} // verus!
