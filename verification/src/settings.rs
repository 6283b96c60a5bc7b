//! Values kept in the persisted settings store, and how they are read back.

use vstd::prelude::*;

verus! {

/// A value as the settings store holds it, reduced to what the library reads.
pub enum StoredValue {
    Null,
    Bool(bool),
    /// A number that is an integer representable as `i64`.
    Integer(i64),
    Text(String),
    /// Any other value (a fractional number, an array, an object, ...).
    Other,
}

/// Whether notifications are shown: the stored flag where it is a boolean,
/// and on in every other case.
pub open spec fn notifications_enabled_spec(stored: Option<StoredValue>) -> bool {
    match stored {
        Some(StoredValue::Bool(b)) => b,
        _ => true,
    }
}

/// Reads the notifications setting; a missing or non-boolean value means on.
pub fn notifications_enabled(stored: &Option<StoredValue>) -> (r: bool)
    ensures
        r == notifications_enabled_spec(*stored),
{
    match stored {
        Some(StoredValue::Bool(b)) => *b,
        _ => true,
    }
}

/// The value stored when the user turns notifications on or off.
pub fn notifications_setting(enabled: bool) -> (r: StoredValue)
    ensures
        r == StoredValue::Bool(enabled),
{
    StoredValue::Bool(enabled)
}

/// The configured server address, where the store holds one as text.
pub open spec fn stored_server_url_spec(stored: Option<StoredValue>) -> Option<Seq<char>> {
    match stored {
        Some(StoredValue::Text(s)) => Some(s@),
        _ => None,
    }
}

/// Reads the configured server address; any value that is not text counts
/// as none.
pub fn stored_server_url(stored: &Option<StoredValue>) -> (r: Option<String>)
    ensures
        match r {
            Some(s) => stored_server_url_spec(*stored) == Some(s@),
            None => stored_server_url_spec(*stored) is None,
        },
{
    match stored {
        Some(StoredValue::Text(s)) => Some(s.clone()),
        _ => None,
    }
}

/// The value stored when the user configures a server address.
pub fn server_url_setting(url: &str) -> (r: StoredValue)
    ensures
        r matches StoredValue::Text(s) && s@ == url@,
{
    StoredValue::Text(String::from_str(url))
}

/// Setting notifications on or off and reading the setting back gives the
/// value that was set.
pub proof fn law_notifications_setting_round_trip(enabled: bool)
    ensures
        notifications_enabled_spec(Some(StoredValue::Bool(enabled))) == enabled,
{
}

/// Until a notifications setting is stored, notifications are on.
pub proof fn law_notifications_default_on()
    ensures
        notifications_enabled_spec(None),
{
}

/// Only a stored boolean turns notifications off, and only when it is
/// `false`; nothing stored, or a value of any other kind, leaves them on.
pub proof fn law_notifications_off_only_by_false(stored: Option<StoredValue>)
    ensures
        !notifications_enabled_spec(stored) <==> stored == Some(StoredValue::Bool(false)),
{
}

/// Only stored text is a server address; any other value reads as none.
pub proof fn law_server_url_only_from_text(stored: Option<StoredValue>)
    ensures
        stored_server_url_spec(stored) is Some <==> stored matches Some(StoredValue::Text(_)),
{
}

/// A configured server address reads back as the same address.
pub proof fn law_server_url_round_trip(url: String)
    ensures
        stored_server_url_spec(Some(StoredValue::Text(url))) == Some(url@),
{
}

} // verus!
