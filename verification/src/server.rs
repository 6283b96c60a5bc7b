//! The configured Chatto server: validating a new address, whether it must
//! be probed for reachability, what a failed probe is reported as, and
//! whether the page currently sits on a foreign host.

use vstd::prelude::*;
use crate::text::text_eq;
use crate::web_url::{WebUrl, WebUrlView, parse_url, url_parse_outcome};

verus! {

/// The server that is loaded when none is configured.
pub open spec fn default_server_url_spec() -> Seq<char> {
    "https://chat.chatto.run"@
}

/// The server that is loaded when none is configured.
pub fn default_server_url() -> (r: String)
    ensures
        r@ == default_server_url_spec(),
{
    String::from_str("https://chat.chatto.run")
}

/// Hosts that are served locally and skip the reachability probe.
pub open spec fn is_local_host_spec(host: Seq<char>) -> bool {
    host == "localhost"@ || host == "127.0.0.1"@ || host == "::1"@
}

/// Whether `host` names this machine, so that no reachability probe is made
/// (it may use a self-signed certificate).
pub fn is_local_host(host: &str) -> (r: bool)
    ensures
        r == is_local_host_spec(host@),
{
    text_eq(host, "localhost") || text_eq(host, "127.0.0.1") || text_eq(host, "::1")
}

/// Whether a server at this parsed address is probed before it is saved.
pub open spec fn needs_probe_spec(url: WebUrlView) -> bool {
    match url.host {
        Some(h) => !is_local_host_spec(h),
        None => true,
    }
}

/// A new server address that parsed, with whether it must be probed.
pub struct ServerUrlPlan {
    pub url: WebUrl,
    pub probe: bool,
}

/// The message for an address that does not parse.
pub open spec fn invalid_url_message(parse_error: Seq<char>) -> Seq<char> {
    "Invalid URL: "@ + parse_error
}

fn invalid_url_error(parse_error: &str) -> (r: String)
    ensures
        r@ == invalid_url_message(parse_error@),
{
    let mut m = String::from_str("Invalid URL: ");
    m.append(parse_error);
    m
}

/// First step of configuring a server: parse the address and decide whether
/// the reachability probe runs.
pub fn plan_server_url(url: &str) -> (r: Result<ServerUrlPlan, String>)
    ensures
        match url_parse_outcome(url@) {
            Ok(u) => r matches Ok(p) && p.url@ == u && p.probe == needs_probe_spec(u),
            Err(e) => r matches Err(m) && m@ == invalid_url_message(e),
        },
{
    match parse_url(url) {
        Ok(u) => {
            let probe = match &u.host {
                Some(h) => !is_local_host(h.as_str()),
                None => true,
            };
            Ok(ServerUrlPlan { url: u, probe })
        },
        Err(e) => Err(invalid_url_error(e.as_str())),
    }
}

/// The kind of transport failure of a reachability probe.
pub enum TransportKind {
    /// The name did not resolve.
    Dns,
    /// No connection could be made.
    ConnectionFailed,
    /// The connection failed while in use.
    Io,
    /// Any other transport failure.
    Other,
}

/// How a reachability probe of a server ended.
pub enum ProbeOutcome {
    /// A successful response.
    Responded,
    /// An HTTP error status: the server is reachable all the same.
    HttpStatus,
    /// No HTTP response; `detail` is the transport error's own text.
    Transport { kind: TransportKind, detail: String },
}

/// The reason shown for a transport failure.
pub open spec fn transport_reason(kind: TransportKind) -> Seq<char> {
    match kind {
        TransportKind::Dns => "Server not found, check the address"@,
        TransportKind::ConnectionFailed => "Could not connect to server"@,
        TransportKind::Io => "Connection error"@,
        TransportKind::Other => "Server unreachable"@,
    }
}

/// The message for a probe that got no HTTP response.
pub open spec fn unreachable_message(kind: TransportKind, detail: Seq<char>) -> Seq<char> {
    transport_reason(kind) + " ("@ + detail + ")"@
}

fn transport_reason_text(kind: &TransportKind) -> (r: String)
    ensures
        r@ == transport_reason(*kind),
{
    match kind {
        TransportKind::Dns => String::from_str("Server not found, check the address"),
        TransportKind::ConnectionFailed => String::from_str("Could not connect to server"),
        TransportKind::Io => String::from_str("Connection error"),
        TransportKind::Other => String::from_str("Server unreachable"),
    }
}

/// Second step of configuring a server: any HTTP response means the server
/// is reachable; a transport failure refuses the address with a message.
pub fn probe_verdict(outcome: &ProbeOutcome) -> (r: Result<(), String>)
    ensures
        match *outcome {
            ProbeOutcome::Transport { kind, detail } => r matches Err(m) && m@
                == unreachable_message(kind, detail@),
            _ => r is Ok,
        },
{
    match outcome {
        ProbeOutcome::Transport { kind, detail } => {
            let mut m = transport_reason_text(kind);
            m.append(" (");
            m.append(detail.as_str());
            m.append(")");
            Err(m)
        },
        _ => Ok(()),
    }
}

/// The address the main window loads: the configured one, else the default.
pub fn main_window_url(configured: Option<String>) -> (r: String)
    ensures
        match configured {
            Some(c) => r@ == c@,
            None => r@ == default_server_url_spec(),
        },
{
    match configured {
        Some(c) => c,
        None => default_server_url(),
    }
}

/// The host of an address, where it parses and has one.
pub open spec fn origin_host_spec(url: Seq<char>) -> Option<Seq<char>> {
    match url_parse_outcome(url) {
        Ok(u) => u.host,
        Err(_) => None,
    }
}

/// The configured origin host, taken from the address the main window
/// loads; it keys the external-link handling.
pub fn configured_origin_host(url: &str) -> (r: Option<String>)
    ensures
        match r {
            Some(h) => origin_host_spec(url@) == Some(h@),
            None => origin_host_spec(url@) is None,
        },
        match url_parse_outcome(url@) {
            Ok(u) => crate::web_url::opt_text_view(r) == u.host,
            Err(_) => r is None,
        },
{
    match parse_url(url) {
        Ok(u) => u.host,
        Err(_) => None,
    }
}

/// Whether a page at host `host` is inside a sign-in flow on a foreign host,
/// given the configured origin host (none while the window is not built).
pub open spec fn in_instance_flow_spec(host: Seq<char>, origin: Option<Seq<char>>) -> bool {
    match origin {
        Some(o) => host != o,
        None => false,
    }
}

/// The host that a page address is compared on: its host, or empty.
pub open spec fn page_host(u: WebUrlView) -> Seq<char> {
    match u.host {
        Some(h) => h,
        None => Seq::empty(),
    }
}

/// Answers the page on each load: whether outbound links stay inside the
/// webview. They do while the page is on a host other than the configured
/// origin; with no origin known, they do not. `configured` is the
/// configured origin host, or the error met while reading it.
pub fn check_instance_flow(url: &str, configured: Result<Option<String>, String>) -> (r: Result<
    bool,
    String,
>)
    ensures
        match url_parse_outcome(url@) {
            Err(e) => r matches Err(m) && m@ == invalid_url_message(e),
            Ok(u) => match configured {
                Err(c) => r matches Err(m) && m@ == c@,
                Ok(origin) => r == Ok::<bool, String>(
                    in_instance_flow_spec(page_host(u), crate::web_url::opt_text_view(origin)),
                ),
            },
        },
{
    let parsed = match parse_url(url) {
        Ok(u) => u,
        Err(e) => return Err(invalid_url_error(e.as_str())),
    };
    let host = match &parsed.host {
        Some(h) => String::from_str(h.as_str()),
        None => String::new(),
    };
    assert(host@ == page_host(parsed@));
    match configured {
        Err(c) => Err(c),
        Ok(Some(origin)) => Ok(!(host == origin)),
        Ok(None) => Ok(false),
    }
}

/// The configured origin host is the host of the parsed address, whatever
/// its scheme; an address that does not parse, or has no host, gives none.
pub proof fn law_origin_host_is_parsed_host(url: Seq<char>)
    ensures
        url_parse_outcome(url) matches Ok(u) ==> origin_host_spec(url) == u.host,
        (url_parse_outcome(url) matches Ok(u) && u.host is Some) ==> origin_host_spec(url) == Some(
            url_parse_outcome(url)->Ok_0.host->0,
        ),
        url_parse_outcome(url) is Err ==> origin_host_spec(url) is None,
{
}

/// A page is compared on its own host, or on the empty host when it has none.
pub proof fn law_page_host_is_its_host(u: WebUrlView)
    ensures
        u.host matches Some(h) ==> page_host(u) == h,
        u.host is None ==> page_host(u).len() == 0,
{
}

/// Exactly the three local names skip the probe: `localhost`, `127.0.0.1`
/// and `::1`; any other host, and a URL with no host, is probed.
pub proof fn law_probe_all_but_local_names(u: WebUrlView)
    ensures
        u.host == Some("localhost"@) ==> !needs_probe_spec(u),
        u.host == Some("127.0.0.1"@) ==> !needs_probe_spec(u),
        u.host == Some("::1"@) ==> !needs_probe_spec(u),
        (u.host matches Some(h) && h != "localhost"@ && h != "127.0.0.1"@ && h != "::1"@) ==> needs_probe_spec(u),
        u.host is None ==> needs_probe_spec(u),
{
}

/// A probe that got any HTTP response accepts the server; one that got none
/// refuses it with a message that ends with the transport error's text in
/// brackets, and different kinds of failure give different reasons.
pub proof fn law_probe_verdict_reports_detail(kind: TransportKind, other: TransportKind, detail: Seq<char>)
    ensures
        ({
            let m = unreachable_message(kind, detail);
            let tail = " ("@ + detail + ")"@;
            &&& tail.len() < m.len()
            &&& m.subrange(m.len() - tail.len(), m.len() as int) == tail
        }),
        kind != other ==> transport_reason(kind) != transport_reason(other),
{
    let m = unreachable_message(kind, detail);
    let tail = " ("@ + detail + ")"@;
    reveal_strlit("Server not found, check the address");
    reveal_strlit("Could not connect to server");
    reveal_strlit("Connection error");
    reveal_strlit("Server unreachable");
    assert(transport_reason(kind).len() > 0);
    assert(m =~= transport_reason(kind) + tail);
    assert(m.subrange(m.len() - tail.len(), m.len() as int) =~= tail);
    assert("Server not found, check the address"@.len() == 35);
    assert("Could not connect to server"@.len() == 27);
    assert("Connection error"@.len() == 16);
    assert("Server unreachable"@.len() == 18);
}

/// An address that does not parse is refused with "Invalid URL: " followed
/// by the parser's own message.
pub proof fn law_invalid_url_message(e: Seq<char>)
    ensures
        ({
            let m = invalid_url_message(e);
            &&& m.len() == 13 + e.len()
            &&& m.subrange(0, 13) == "Invalid URL: "@
            &&& m.subrange(13, m.len() as int) == e
        }),
{
    reveal_strlit("Invalid URL: ");
    let m = invalid_url_message(e);
    assert(m.subrange(0, 13) =~= "Invalid URL: "@);
    assert(m.subrange(13, m.len() as int) =~= e);
}

/// With no configured origin, links are never kept inside the webview.
pub proof fn law_unknown_origin_externalizes(host: Seq<char>)
    ensures
        !in_instance_flow_spec(host, None),
{
}

/// A page on the configured origin host is never in an instance flow; a page
/// on any other host is.
pub proof fn law_instance_flow_is_foreign_host(host: Seq<char>, origin: Seq<char>)
    ensures
        in_instance_flow_spec(host, Some(origin)) <==> host != origin,
        !in_instance_flow_spec(origin, Some(origin)),
{
}

/// A local address is saved without a reachability probe; any other address
/// with a host is probed.
pub proof fn law_local_hosts_skip_probe(u: WebUrlView)
    requires
        u.host is Some,
    ensures
        needs_probe_spec(u) <==> !is_local_host_spec(u.host->0),
{
}

} // verus!
