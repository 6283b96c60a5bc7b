//! How the main window answers window-system events.

use vstd::prelude::*;

verus! {

/// The script run in the page when the window gains (`true`) or loses focus:
/// it records whether the window is hidden and tells the page that its
/// visibility changed.
pub open spec fn focus_script_spec(focused: bool) -> Seq<char> {
    if focused {
        "window.__chattoWindowHidden=false;document.dispatchEvent(new Event('visibilitychange'));"@
    } else {
        "window.__chattoWindowHidden=true;document.dispatchEvent(new Event('visibilitychange'));"@
    }
}

/// The script run in the page on a focus change.
pub fn focus_script(focused: bool) -> (r: String)
    ensures
        r@ == focus_script_spec(focused),
{
    if focused {
        String::from_str(
            "window.__chattoWindowHidden=false;document.dispatchEvent(new Event('visibilitychange'));",
        )
    } else {
        String::from_str(
            "window.__chattoWindowHidden=true;document.dispatchEvent(new Event('visibilitychange'));",
        )
    }
}

/// A window event, reduced to what the shell answers.
pub enum WindowEvent {
    /// The user asked to close the window.
    CloseRequested,
    /// The window gained (`true`) or lost focus.
    Focused(bool),
    /// Files were dropped onto the window.
    FilesDropped,
    /// Any other event.
    Other,
}

/// The answer to a window event.
pub enum WindowResponse {
    /// Hide the window and keep the app running in the tray.
    HideInsteadOfClose,
    /// Run this script in the page.
    RunScript(String),
    /// Forward the dropped files into the page.
    ForwardDrop,
    Nothing,
}

/// Answers a window event on the desktop: closing hides to the tray, focus
/// changes are reported to the page, dropped files are forwarded.
pub fn window_event_response(event: WindowEvent) -> (r: WindowResponse)
    ensures
        match event {
            WindowEvent::CloseRequested => r is HideInsteadOfClose,
            WindowEvent::Focused(f) => r matches WindowResponse::RunScript(s) && s@ == focus_script_spec(f),
            WindowEvent::FilesDropped => r is ForwardDrop,
            WindowEvent::Other => r is Nothing,
        },
{
    match event {
        WindowEvent::CloseRequested => WindowResponse::HideInsteadOfClose,
        WindowEvent::Focused(f) => WindowResponse::RunScript(focus_script(f)),
        WindowEvent::FilesDropped => WindowResponse::ForwardDrop,
        WindowEvent::Other => WindowResponse::Nothing,
    }
}

/// What toggling the main window from the tray does.
#[derive(PartialEq, Eq, Structural, Debug, Clone, Copy)]
pub enum WindowToggle {
    /// Hide the window.
    Hide,
    /// Unminimize, show and focus the window.
    Reveal,
}

/// Toggles the main window: a window known to be visible is hidden; one that
/// is hidden, or whose visibility could not be read, is revealed.
pub fn window_toggle(visible: Option<bool>) -> (r: WindowToggle)
    ensures
        r == (if visible == Some(true) {
            WindowToggle::Hide
        } else {
            WindowToggle::Reveal
        }),
{
    match visible {
        Some(true) => WindowToggle::Hide,
        _ => WindowToggle::Reveal,
    }
}

/// Whether a click on the tray icon toggles the window: only the release of
/// the left button does.
pub fn tray_click_toggles_window(left_button: bool, released: bool) -> (r: bool)
    ensures
        r == (left_button && released),
{
    left_button && released
}

/// Whether re-activating the app (dock icon, notification) shows the main
/// window: only when no window is visible.
pub fn reopen_shows_window(has_visible_windows: bool) -> (r: bool)
    ensures
        r == !has_visible_windows,
{
    !has_visible_windows
}

/// The page is told it is hidden exactly when the window lost focus.
pub proof fn law_focus_script_reports_hidden(focused: bool)
    ensures
        focus_script_spec(focused) == focus_script_spec(true) <==> focused,
{
    reveal_strlit(
        "window.__chattoWindowHidden=false;document.dispatchEvent(new Event('visibilitychange'));",
    );
    reveal_strlit(
        "window.__chattoWindowHidden=true;document.dispatchEvent(new Event('visibilitychange'));",
    );
    assert(focus_script_spec(false)[28] != focus_script_spec(true)[28]);
}

} // verus!
