//! The unread badge on the dock or taskbar.

use vstd::prelude::*;

verus! {

/// The badge shown for a count reported by the web app: a positive count is
/// shown, zero or a negative count clears the badge.
pub open spec fn badge_spec(count: Option<i64>) -> Option<i64> {
    match count {
        Some(c) => if c > 0 {
            Some(c)
        } else {
            None
        },
        None => None,
    }
}

/// Normalises a reported unread count for the native badge.
pub fn normalize_badge_count(count: Option<i64>) -> (r: Option<i64>)
    ensures
        r == badge_spec(count),
        forall|c: i64| count == Some(c) && c > 0 ==> r == Some(c),
        forall|c: i64| count == Some(c) && c <= 0 ==> r is None,
        count is None ==> r is None,
{
    match count {
        Some(c) => if c > 0 {
            Some(c)
        } else {
            None
        },
        None => None,
    }
}

/// A badge that is shown always holds a positive count, and normalising a
/// normalised count changes nothing.
pub proof fn law_badge_positive_and_stable(count: Option<i64>)
    ensures
        badge_spec(count) matches Some(c) ==> c > 0,
        badge_spec(badge_spec(count)) == badge_spec(count),
        (count matches Some(c) && c <= 0) ==> badge_spec(count) is None,
{
}

/// Every positive unread count is shown unchanged; only a count of zero or
/// below, or no count, clears the badge.
pub proof fn law_badge_shows_every_positive_count()
    ensures
        forall|c: i64| c > 0 ==> #[trigger] badge_spec(Some(c)) == Some(c),
        forall|c: i64| c <= 0 ==> #[trigger] badge_spec(Some(c)) is None,
        badge_spec(None) is None,
{
}

/// A badge that shows one unread message shows exactly that one.
pub proof fn law_badge_counts_one()
    ensures
        badge_spec(Some(1i64)) == Some(1i64),
{
}

} // verus!
