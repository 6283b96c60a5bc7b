//! Addresses of the bundled frontend (the settings page).

use vstd::prelude::*;
use crate::web_url::{WebUrl, parse_url, url_parse_outcome, parse_result_view};

verus! {

/// Where the bundled frontend is served from.
#[derive(PartialEq, Eq, Structural, Debug, Clone, Copy)]
pub enum FrontendBase {
    /// The development server of a debug build.
    DevServer,
    /// `http://tauri.localhost`, used on Windows and Android.
    LocalHttp,
    /// `tauri://localhost`, used on the other platforms.
    TauriScheme,
}

/// The operating system the shell runs on.
#[derive(PartialEq, Eq, Structural, Debug, Clone, Copy)]
pub enum TargetOs {
    Windows,
    MacOs,
    Linux,
    Android,
    Ios,
}

pub open spec fn frontend_base_spec(base: FrontendBase) -> Seq<char> {
    match base {
        FrontendBase::DevServer => "http://localhost:1420"@,
        FrontendBase::LocalHttp => "http://tauri.localhost"@,
        FrontendBase::TauriScheme => "tauri://localhost"@,
    }
}

/// The origin text of a frontend base.
pub fn frontend_base_text(base: FrontendBase) -> (r: String)
    ensures
        r@ == frontend_base_spec(base),
{
    match base {
        FrontendBase::DevServer => String::from_str("http://localhost:1420"),
        FrontendBase::LocalHttp => String::from_str("http://tauri.localhost"),
        FrontendBase::TauriScheme => String::from_str("tauri://localhost"),
    }
}

/// The frontend base of a desktop build: the development server in a debug
/// build; otherwise `http://tauri.localhost` on Windows (and Android) and
/// `tauri://localhost` elsewhere.
pub fn desktop_frontend_base(debug_build: bool, os: TargetOs) -> (r: FrontendBase)
    ensures
        r == (if debug_build {
            FrontendBase::DevServer
        } else if os == TargetOs::Windows || os == TargetOs::Android {
            FrontendBase::LocalHttp
        } else {
            FrontendBase::TauriScheme
        }),
{
    if debug_build {
        FrontendBase::DevServer
    } else {
        match os {
            TargetOs::Windows | TargetOs::Android => FrontendBase::LocalHttp,
            _ => FrontendBase::TauriScheme,
        }
    }
}

/// The frontend base of a mobile build: `http://tauri.localhost` on Android,
/// `tauri://localhost` on iOS.
pub fn mobile_frontend_base(os: TargetOs) -> (r: FrontendBase)
    ensures
        r == (if os == TargetOs::Android {
            FrontendBase::LocalHttp
        } else {
            FrontendBase::TauriScheme
        }),
{
    match os {
        TargetOs::Android => FrontendBase::LocalHttp,
        _ => FrontendBase::TauriScheme,
    }
}

/// The address of `path` on the bundled frontend, parsed.
pub fn frontend_url(base: FrontendBase, path: &str) -> (r: Result<WebUrl, String>)
    ensures
        parse_result_view(r) == url_parse_outcome(frontend_base_spec(base) + path@),
{
    let mut t = frontend_base_text(base);
    t.append(path);
    parse_url(t.as_str())
}

/// The path of the settings page on the bundled frontend.
pub open spec fn settings_path_spec() -> Seq<char> {
    "/?settings"@
}

/// The address of the settings page.
pub fn settings_page_url(base: FrontendBase) -> (r: Result<WebUrl, String>)
    ensures
        parse_result_view(r) == url_parse_outcome(frontend_base_spec(base) + settings_path_spec()),
{
    frontend_url(base, "/?settings")
}

} // verus!
