//! Parsed web addresses, as the library reads them.
//!
//! Parsing is done by the `url` crate; what the rest of the library needs
//! of a parsed address is held here as plain strings.

use vstd::prelude::*;

verus! {

/// The parts of a parsed absolute URL that the library reads.
pub struct WebUrl {
    /// The whole normalised serialization.
    pub serialization: String,
    /// The scheme, without the `:` delimiter.
    pub scheme: String,
    /// `host[:port]` with any user info, or empty when there is none.
    pub authority: String,
    /// The host, where the URL has one.
    pub host: Option<String>,
    /// The path component.
    pub path: String,
    /// The query, without the leading `?`, where there is one.
    pub query: Option<String>,
}

/// Mathematical view of a [`WebUrl`].
pub struct WebUrlView {
    pub serialization: Seq<char>,
    pub scheme: Seq<char>,
    pub authority: Seq<char>,
    pub host: Option<Seq<char>>,
    pub path: Seq<char>,
    pub query: Option<Seq<char>>,
}

pub open spec fn opt_text_view(s: Option<String>) -> Option<Seq<char>> {
    match s {
        Some(v) => Some(v@),
        None => None,
    }
}

impl View for WebUrl {
    type V = WebUrlView;

    open spec fn view(&self) -> WebUrlView {
        WebUrlView {
            serialization: self.serialization@,
            scheme: self.scheme@,
            authority: self.authority@,
            host: opt_text_view(self.host),
            path: self.path@,
            query: opt_text_view(self.query),
        }
    }
}

/// What `url::Url::parse` gives for an input: the parts of the absolute URL,
/// or the text of the parse error.
pub uninterp spec fn url_parse_outcome(input: Seq<char>) -> Result<WebUrlView, Seq<char>>;

/// View of a parse result.
pub open spec fn parse_result_view(r: Result<WebUrl, String>) -> Result<WebUrlView, Seq<char>> {
    match r {
        Ok(u) => Ok(u@),
        Err(e) => Err(e@),
    }
}

/// The parsed URL, where the text parses.
pub open spec fn url_parse_ok(input: Seq<char>) -> Option<WebUrlView> {
    match url_parse_outcome(input) {
        Ok(u) => Some(u),
        Err(_) => None,
    }
}

/// Parses `input` as an absolute URL with `url::Url::parse`.
///
/// Trusted: the result is the one that `url::Url::parse` gives for the
/// input, read through `as_str`, `scheme`, `authority`, `host_str`, `path`
/// and `query`; a parse error is returned as its `Display` text. Nothing is
/// claimed of what the parser accepts.
#[verifier::external_body]
pub(crate) fn parse_url(input: &str) -> (r: Result<WebUrl, String>)
    ensures
        parse_result_view(r) == url_parse_outcome(input@),
{
    match url::Url::parse(input) {
        Ok(u) => Ok(WebUrl {
            serialization: u.as_str().to_string(),
            scheme: u.scheme().to_string(),
            authority: u.authority().to_string(),
            host: u.host_str().map(String::from),
            path: u.path().to_string(),
            query: u.query().map(String::from),
        }),
        Err(e) => Err(e.to_string()),
    }
}

} // verus!
