use chatto_desktop::deep_link::{deep_link_to_web_url, trim_slashes};
use chatto_desktop::frontend::{
    desktop_frontend_base, frontend_url, mobile_frontend_base, settings_page_url, FrontendBase, TargetOs,
};
use chatto_desktop::server::{
    check_instance_flow, configured_origin_host, default_server_url, is_local_host, main_window_url,
    plan_server_url, probe_verdict, ProbeOutcome, TransportKind,
};
use chatto_desktop::web_url::WebUrl;

fn link(text: &str) -> WebUrl {
    // a link as the deep-link plugin hands it over, parsed by the same parser
    let plan = plan_server_url(text).expect("link parses");
    plan.url
}

#[test]
fn plan_rejects_invalid_url() {
    let err = plan_server_url("not a url").err().unwrap();
    assert_eq!(err, "Invalid URL: relative URL without a base");
    let err = plan_server_url("https://").err().unwrap();
    assert_eq!(err, "Invalid URL: empty host");
}

#[test]
fn plan_probes_remote_hosts_only() {
    let p = plan_server_url("https://chat.example.org").unwrap();
    assert!(p.probe);
    assert_eq!(p.url.serialization, "https://chat.example.org/");
    assert!(!plan_server_url("http://localhost:8080").unwrap().probe);
    assert!(!plan_server_url("https://127.0.0.1/").unwrap().probe);
    // the parser writes an IPv6 host with brackets, so it is probed
    assert!(plan_server_url("http://[::1]:3000").unwrap().probe);
}

#[test]
fn local_host_names() {
    assert!(is_local_host("localhost"));
    assert!(is_local_host("127.0.0.1"));
    assert!(is_local_host("::1"));
    assert!(!is_local_host("localhost.example.org"));
    assert!(!is_local_host(""));
}

#[test]
fn probe_verdicts() {
    assert_eq!(probe_verdict(&ProbeOutcome::Responded), Ok(()));
    assert_eq!(probe_verdict(&ProbeOutcome::HttpStatus), Ok(()));
    let e = probe_verdict(&ProbeOutcome::Transport { kind: TransportKind::Dns, detail: "dns failed".to_string() });
    assert_eq!(e, Err("Server not found, check the address (dns failed)".to_string()));
    let e = probe_verdict(&ProbeOutcome::Transport {
        kind: TransportKind::ConnectionFailed,
        detail: "refused".to_string(),
    });
    assert_eq!(e, Err("Could not connect to server (refused)".to_string()));
    let e = probe_verdict(&ProbeOutcome::Transport { kind: TransportKind::Io, detail: "reset".to_string() });
    assert_eq!(e, Err("Connection error (reset)".to_string()));
    let e = probe_verdict(&ProbeOutcome::Transport { kind: TransportKind::Other, detail: "tls".to_string() });
    assert_eq!(e, Err("Server unreachable (tls)".to_string()));
}

#[test]
fn main_window_url_falls_back_to_default() {
    assert_eq!(main_window_url(None), "https://chat.chatto.run");
    assert_eq!(default_server_url(), "https://chat.chatto.run");
    assert_eq!(main_window_url(Some("https://x.example".to_string())), "https://x.example");
}

#[test]
fn origin_host_of_configured_url() {
    assert_eq!(configured_origin_host("https://chat.chatto.run"), Some("chat.chatto.run".to_string()));
    assert_eq!(configured_origin_host("https://Chat.Example.ORG:8443/x"), Some("chat.example.org".to_string()));
    assert_eq!(configured_origin_host("nonsense"), None);
    assert_eq!(configured_origin_host("mailto:someone@example.org"), None);
}

#[test]
fn instance_flow_on_foreign_host() {
    let origin = Ok(Some("chat.chatto.run".to_string()));
    assert_eq!(check_instance_flow("https://accounts.google.com/o/oauth2", origin.clone()), Ok(true));
    assert_eq!(check_instance_flow("https://chat.chatto.run/chat/abc", origin.clone()), Ok(false));
    assert_eq!(check_instance_flow("https://accounts.google.com/", Ok(None)), Ok(false));
    assert_eq!(
        check_instance_flow("bad url", origin),
        Err("Invalid URL: relative URL without a base".to_string())
    );
    assert_eq!(check_instance_flow("https://a.example/", Err("poisoned".to_string())), Err("poisoned".to_string()));
    // a page without a host is compared as the empty host
    assert_eq!(check_instance_flow("data:text/plain,x", Ok(Some("chat.chatto.run".to_string()))), Ok(true));
}

#[test]
fn trims_leading_slashes() {
    assert_eq!(trim_slashes("///a/b"), "a/b");
    assert_eq!(trim_slashes("a/b/"), "a/b/");
    assert_eq!(trim_slashes("////"), "");
    assert_eq!(trim_slashes(""), "");
}

#[test]
fn deep_link_with_host_segment() {
    let l = link("chatto://chat/-/room");
    let u = deep_link_to_web_url(&l, None).unwrap();
    assert_eq!(u.serialization, "https://chat.chatto.run/chat/-/room");
}

#[test]
fn deep_link_with_empty_host_round_trips_the_same() {
    let a = deep_link_to_web_url(&link("chatto://chat/-/room"), None).unwrap();
    let b = deep_link_to_web_url(&link("chatto:///chat/-/room"), None).unwrap();
    assert_eq!(a.serialization, b.serialization);
}

#[test]
fn deep_link_keeps_query_and_uses_configured_origin() {
    let l = link("chatto://chat/room-1?event=42&x=y");
    let u = deep_link_to_web_url(&l, Some("http://localhost:8080/ignored/path".to_string())).unwrap();
    assert_eq!(u.serialization, "http://localhost:8080/chat/room-1?event=42&x=y");
    assert_eq!(u.query, Some("event=42&x=y".to_string()));
}

#[test]
fn deep_link_rejects_other_schemes() {
    assert!(deep_link_to_web_url(&link("https://chat.chatto.run/chat/x"), None).is_none());
    assert!(deep_link_to_web_url(&link("chattox://chat/x"), None).is_none());
}

#[test]
fn deep_link_with_unparsable_origin_is_dropped() {
    assert!(deep_link_to_web_url(&link("chatto://chat/x"), Some("not a url".to_string())).is_none());
}

#[test]
fn frontend_addresses() {
    assert_eq!(desktop_frontend_base(true, TargetOs::MacOs), FrontendBase::DevServer);
    assert_eq!(desktop_frontend_base(false, TargetOs::Windows), FrontendBase::LocalHttp);
    assert_eq!(desktop_frontend_base(false, TargetOs::Linux), FrontendBase::TauriScheme);
    assert_eq!(mobile_frontend_base(TargetOs::Android), FrontendBase::LocalHttp);
    assert_eq!(mobile_frontend_base(TargetOs::Ios), FrontendBase::TauriScheme);
    let u = settings_page_url(FrontendBase::DevServer).unwrap();
    assert_eq!(u.serialization, "http://localhost:1420/?settings");
    assert_eq!(u.query, Some("settings".to_string()));
    let u = settings_page_url(FrontendBase::TauriScheme).unwrap();
    assert_eq!(u.serialization, "tauri://localhost/?settings");
    let u = frontend_url(FrontendBase::LocalHttp, "/x").unwrap();
    assert_eq!(u.host, Some("tauri.localhost".to_string()));
    assert_eq!(u.path, "/x");
}
