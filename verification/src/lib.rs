//! Decision logic of the Chatto desktop and mobile shell: which server the
//! webview loads, how `chatto://` deep links become web addresses, when a
//! server is probed for reachability, the zoom level, the unread badge,
//! the update-check flow, the menu and tray dispatch, and the script that
//! forwards dropped files into the page.
//!
//! The window system, the persisted store and the network stay outside this
//! crate: callers hand the results of that work in as plain values.

pub mod text;
pub mod web_url;
pub mod settings;
pub mod zoom;
pub mod server;
pub mod deep_link;
pub mod badge;
pub mod updates;
pub mod menu;
pub mod window;
pub mod frontend;
pub mod file_drop;

