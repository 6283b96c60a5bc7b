//! `chatto://` deep links, turned into web addresses on the configured
//! server. The webview only loads http(s), so a custom-scheme link is
//! rewritten onto the origin's scheme and authority, keeping its path and
//! query.

use vstd::prelude::*;
use crate::text::text_eq;
use crate::web_url::{WebUrl, WebUrlView, parse_url, url_parse_outcome, url_parse_ok, opt_text_view};
use crate::server::{default_server_url, default_server_url_spec};

verus! {

/// `s` without its leading `/` characters.
pub open spec fn trim_leading_slashes(s: Seq<char>) -> Seq<char>
    decreases s.len(),
{
    if s.len() > 0 && s[0] == '/' {
        trim_leading_slashes(s.drop_first())
    } else {
        s
    }
}

/// The host of a link, or empty.
pub open spec fn host_or_empty(link: WebUrlView) -> Seq<char> {
    match link.host {
        Some(h) => h,
        None => Seq::empty(),
    }
}

/// The path of a deep link on the web server: a custom-scheme URL parses its
/// first segment as the host, so the host is folded back in front of the
/// path, and leading slashes are dropped.
pub open spec fn link_path_spec(link: WebUrlView) -> Seq<char> {
    trim_leading_slashes(host_or_empty(link) + link.path)
}

/// The text of the web address for `link` on the server `origin`.
pub open spec fn web_target_spec(link: WebUrlView, origin: WebUrlView) -> Seq<char> {
    let base = origin.scheme + "://"@ + origin.authority + "/"@ + link_path_spec(link);
    match link.query {
        Some(q) => base + "?"@ + q,
        None => base,
    }
}

/// The web address a deep link opens, given the configured server address:
/// none for a link of another scheme, for an origin that does not parse, or
/// for a target that does not parse.
pub open spec fn deep_link_target_spec(link: WebUrlView, configured: Option<Seq<char>>) -> Option<
    WebUrlView,
> {
    if link.scheme != "chatto"@ {
        None
    } else {
        let origin_text = match configured {
            Some(c) => c,
            None => default_server_url_spec(),
        };
        match url_parse_outcome(origin_text) {
            Err(_) => None,
            Ok(origin) => url_parse_ok(web_target_spec(link, origin)),
        }
    }
}

proof fn lemma_trim_from(s: Seq<char>, i: int)
    requires
        0 <= i <= s.len(),
        forall|j: int| 0 <= j < i ==> s[j] == '/',
    ensures
        trim_leading_slashes(s) == trim_leading_slashes(s.subrange(i, s.len() as int)),
    decreases i,
{
    if i > 0 {
        assert(s.drop_first().subrange(i - 1, s.drop_first().len() as int) =~= s.subrange(
            i,
            s.len() as int,
        ));
        lemma_trim_from(s.drop_first(), i - 1);
    } else {
        assert(s.subrange(0, s.len() as int) =~= s);
    }
}

/// `s` without its leading slashes.
pub fn trim_slashes(s: &str) -> (r: String)
    ensures
        r@ == trim_leading_slashes(s@),
{
    let n = s.unicode_len();
    let mut i: usize = 0;
    while i < n && s.get_char(i) == '/'
        invariant
            i <= n,
            n == s@.len(),
            forall|j: int| 0 <= j < i ==> s@[j] == '/',
        decreases n - i,
    {
        i = i + 1;
    }
    proof {
        lemma_trim_from(s@, i as int);
        let rest = s@.subrange(i as int, n as int);
        if rest.len() > 0 {
            assert(rest[0] == s@[i as int]);
        }
    }
    String::from_str(s.substring_char(i, n))
}

/// The path of a deep link on the web server.
pub fn link_path(link: &WebUrl) -> (r: String)
    ensures
        r@ == link_path_spec(link@),
{
    let mut joined = match &link.host {
        Some(h) => String::from_str(h.as_str()),
        None => String::new(),
    };
    joined.append(link.path.as_str());
    trim_slashes(joined.as_str())
}

/// The text of the web address for `link` on the server `origin`: origin
/// scheme, `://`, origin authority, `/`, the link's path, and its query.
pub fn web_target(link: &WebUrl, origin: &WebUrl) -> (r: String)
    ensures
        r@ == web_target_spec(link@, origin@),
{
    let mut t = String::from_str(origin.scheme.as_str());
    t.append("://");
    t.append(origin.authority.as_str());
    t.append("/");
    let p = link_path(link);
    t.append(p.as_str());
    match &link.query {
        Some(q) => {
            t.append("?");
            t.append(q.as_str());
        },
        None => {},
    }
    t
}

/// Translates a `chatto://` deep link into the web address on the configured
/// server (`configured`, else the default server). Returns `None` for any
/// other scheme and where the origin or the target does not parse.
pub fn deep_link_to_web_url(link: &WebUrl, configured: Option<String>) -> (r: Option<WebUrl>)
    ensures
        match r {
            Some(u) => deep_link_target_spec(link@, opt_text_view(configured)) == Some(u@),
            None => deep_link_target_spec(link@, opt_text_view(configured)) is None,
        },
{
    if !text_eq(link.scheme.as_str(), "chatto") {
        return None;
    }
    let origin_text = match configured {
        Some(c) => c,
        None => default_server_url(),
    };
    let origin = match parse_url(origin_text.as_str()) {
        Ok(o) => o,
        Err(_) => return None,
    };
    let target = web_target(link, &origin);
    match parse_url(target.as_str()) {
        Ok(u) => Some(u),
        Err(_) => None,
    }
}

/// A link of any scheme other than `chatto` is refused.
pub proof fn law_other_schemes_refused(link: WebUrlView, configured: Option<Seq<char>>)
    requires
        link.scheme != "chatto"@,
    ensures
        deep_link_target_spec(link, configured) is None,
{
}

/// With no configured server a deep link opens on the default server, as if
/// the default had been configured; with a configured server that does not
/// parse, no link opens.
pub proof fn law_default_origin_when_unconfigured(link: WebUrlView, bad: Seq<char>)
    ensures
        deep_link_target_spec(link, None) == deep_link_target_spec(link, Some(default_server_url_spec())),
        url_parse_outcome(bad) is Err ==> deep_link_target_spec(link, Some(bad)) is None,
{
}

/// A `chatto` link on a configured server that parses opens exactly the
/// parse of its target text on that server.
pub proof fn law_configured_origin_used(link: WebUrlView, c: Seq<char>)
    requires
        link.scheme == "chatto"@,
        url_parse_outcome(c) is Ok,
    ensures
        deep_link_target_spec(link, Some(c)) == url_parse_ok(
            web_target_spec(link, url_parse_outcome(c)->Ok_0),
        ),
{
}

/// `chatto://chat/-/room` and `chatto:///chat/-/room` open the same page: a
/// link whose first segment was parsed as its host gives the same target as
/// a link with an empty host and that segment at the start of its path.
pub proof fn law_host_folds_into_path(a: WebUrlView, b: WebUrlView, origin: WebUrlView)
    requires
        a.host is Some,
        a.host->0.len() > 0,
        a.host->0[0] != '/',
        b.host is None || b.host == Some(Seq::<char>::empty()),
        b.path == "/"@ + a.host->0 + a.path,
        a.query == b.query,
    ensures
        web_target_spec(a, origin) == web_target_spec(b, origin),
{
    let h = a.host->0;
    let joined = h + a.path;
    reveal_strlit("/");
    assert(host_or_empty(b) + b.path =~= "/"@ + joined);
    assert(("/"@ + joined).drop_first() =~= joined);
    assert(joined[0] == h[0]);
    assert(link_path_spec(a) == joined);
    assert(link_path_spec(b) == joined);
}

/// The whole target of a link: the origin's scheme and authority, then the
/// link's host (when it has one that does not start with `/`) and its path,
/// then the query. A link without a host keeps its path without the leading
/// slashes.
pub proof fn law_target_text(link: WebUrlView, origin: WebUrlView, h: Seq<char>)
    requires
        link.host == Some(h),
        h.len() > 0,
        h[0] != '/',
    ensures
        link.query is None ==> web_target_spec(link, origin) == origin.scheme + "://"@
            + origin.authority + "/"@ + h + link.path,
        link.query matches Some(q) ==> web_target_spec(link, origin) == origin.scheme + "://"@
            + origin.authority + "/"@ + h + link.path + "?"@ + q,
{
    assert((h + link.path)[0] == h[0]);
    assert(link_path_spec(link) == h + link.path);
}

/// A link without a host, whose path does not start with a slash after its
/// first one, is placed at the root of the origin with that path.
pub proof fn law_target_without_host(link: WebUrlView, origin: WebUrlView, p: Seq<char>)
    requires
        link.host is None,
        link.path == "/"@ + p,
        p.len() > 0,
        p[0] != '/',
        link.query is None,
    ensures
        web_target_spec(link, origin) == origin.scheme + "://"@ + origin.authority + "/"@ + p,
{
    reveal_strlit("/");
    assert(host_or_empty(link) + link.path =~= "/"@ + p);
    assert(("/"@ + p).drop_first() =~= p);
    assert(("/"@ + p)[0] == '/');
    assert(trim_leading_slashes(p) == p);
    assert(trim_leading_slashes("/"@ + p) == trim_leading_slashes(p));
    assert(link_path_spec(link) == p);
}

/// The target of a deep link is on the origin: it starts with the origin's
/// scheme, `://` and authority, and it ends with the link's query.
pub proof fn law_target_on_origin(link: WebUrlView, origin: WebUrlView)
    ensures
        ({
            let prefix = origin.scheme + "://"@ + origin.authority + "/"@;
            let t = web_target_spec(link, origin);
            &&& prefix.len() <= t.len()
            &&& t.subrange(0, prefix.len() as int) == prefix
            &&& link.query is Some ==> ({
                let tail = "?"@ + link.query->0;
                &&& tail.len() <= t.len()
                &&& t.subrange(t.len() - tail.len(), t.len() as int) == tail
            })
        }),
{
    let prefix = origin.scheme + "://"@ + origin.authority + "/"@;
    let base = prefix + link_path_spec(link);
    assert(base.subrange(0, prefix.len() as int) =~= prefix);
    match link.query {
        Some(q) => {
            let t = base + "?"@ + q;
            assert(t.subrange(0, prefix.len() as int) =~= prefix);
            assert(t.subrange(t.len() - ("?"@ + q).len(), t.len() as int) =~= "?"@ + q);
        },
        None => {},
    }
}

} // verus!
