//! The webview zoom level, kept as a percentage.

use vstd::prelude::*;
use crate::settings::StoredValue;

verus! {

/// Smallest zoom level, in percent.
pub const ZOOM_MIN: i32 = 30;
/// Largest zoom level, in percent.
pub const ZOOM_MAX: i32 = 300;
/// The zoom level of a fresh start and of "Actual Size", in percent.
pub const ZOOM_DEFAULT: i32 = 100;
/// The change of one "Zoom In" or "Zoom Out", in percent.
pub const ZOOM_STEP: i32 = 10;

/// `v` held within the zoom range.
pub open spec fn clamp_zoom(v: int) -> int {
    if v < ZOOM_MIN {
        ZOOM_MIN as int
    } else if v > ZOOM_MAX {
        ZOOM_MAX as int
    } else {
        v
    }
}

/// The level after a zoom change of `delta` from `current`: a change of 0
/// resets to the default, any other change is added and held in range.
pub open spec fn next_zoom_spec(current: int, delta: int) -> int {
    if delta == 0 {
        ZOOM_DEFAULT as int
    } else {
        clamp_zoom(current + delta)
    }
}

fn clamp_zoom_exec(v: i32) -> (r: i32)
    ensures
        r == clamp_zoom(v as int),
{
    if v < ZOOM_MIN {
        ZOOM_MIN
    } else if v > ZOOM_MAX {
        ZOOM_MAX
    } else {
        v
    }
}

/// The zoom level after a zoom step of `delta` percent from `current`.
pub fn next_zoom_level(current: i32, delta: i32) -> (r: i32)
    requires
        i32::MIN <= current + delta <= i32::MAX,
    ensures
        r == next_zoom_spec(current as int, delta as int),
        ZOOM_MIN <= r <= ZOOM_MAX,
        30 <= r <= 300,
        delta == 0 ==> r == 100,
        delta != 0 && 30 <= current + delta <= 300 ==> r == current + delta,
        delta != 0 && current + delta > 300 ==> r == 300,
        delta != 0 && current + delta < 30 ==> r == 30,
{
    if delta == 0 {
        ZOOM_DEFAULT
    } else {
        clamp_zoom_exec(current + delta)
    }
}

/// The level restored from a stored value: an integer is cut to `i32` and
/// held in range; anything else restores nothing.
pub open spec fn restored_zoom_spec(stored: Option<StoredValue>) -> Option<int> {
    match stored {
        Some(StoredValue::Integer(level)) => Some(clamp_zoom((level as i32) as int)),
        _ => None,
    }
}

/// The zoom level to restore at start from the persisted value, if any.
pub fn restored_zoom_level(stored: &Option<StoredValue>) -> (r: Option<i32>)
    ensures
        match r {
            Some(l) => restored_zoom_spec(*stored) == Some(l as int) && ZOOM_MIN <= l <= ZOOM_MAX,
            None => restored_zoom_spec(*stored) is None,
        },
{
    match stored {
        Some(StoredValue::Integer(level)) => {
            let cut: i32 = #[verifier::truncate] (*level as i32);
            Some(clamp_zoom_exec(cut))
        },
        _ => None,
    }
}

/// The value stored after a zoom change.
pub fn zoom_setting(level: i32) -> (r: StoredValue)
    ensures
        r == StoredValue::Integer(level as i64),
{
    StoredValue::Integer(level as i64)
}

/// A zoom level that was stored is restored unchanged at the next start.
pub proof fn law_zoom_store_restore(level: i32)
    requires
        ZOOM_MIN <= level <= ZOOM_MAX,
    ensures
        restored_zoom_spec(Some(StoredValue::Integer(level as i64))) == Some(level as int),
{
    assert(((level as i64) as i32) == level);
}

/// Every zoom step ends within the zoom range.
pub proof fn law_zoom_in_range(current: int, delta: int)
    ensures
        ZOOM_MIN <= next_zoom_spec(current, delta) <= ZOOM_MAX,
{
}

/// Zooming in one step and out one step returns to the level where it
/// started, when the first step was not held at the upper bound.
pub proof fn law_zoom_in_then_out(level: int)
    requires
        ZOOM_MIN <= level <= ZOOM_MAX - ZOOM_STEP,
    ensures
        next_zoom_spec(next_zoom_spec(level, ZOOM_STEP as int), -ZOOM_STEP as int) == level,
{
}

/// Zooming out one step and in one step returns to the level where it
/// started, when the first step was not held at the lower bound.
pub proof fn law_zoom_out_then_in(level: int)
    requires
        ZOOM_MIN + ZOOM_STEP <= level <= ZOOM_MAX,
    ensures
        next_zoom_spec(next_zoom_spec(level, -ZOOM_STEP as int), ZOOM_STEP as int) == level,
{
}

/// A zoom step that stays within 30%–300% is applied exactly; one that would
/// leave the range stops at the bound it crosses; a step of 0 gives 100%.
pub proof fn law_zoom_step_exact(current: int, delta: int)
    ensures
        delta != 0 && 30 <= current + delta <= 300 ==> next_zoom_spec(current, delta) == current + delta,
        delta != 0 && current + delta > 300 ==> next_zoom_spec(current, delta) == 300,
        delta != 0 && current + delta < 30 ==> next_zoom_spec(current, delta) == 30,
        next_zoom_spec(current, 0) == 100,
        30 <= next_zoom_spec(current, delta) <= 300,
{
}

/// Whatever is stored, a restored level lies within 30%–300%, and a stored
/// level within that range comes back unchanged.
pub proof fn law_zoom_restore_bounds(stored: Option<StoredValue>, level: i64)
    ensures
        restored_zoom_spec(stored) matches Some(l) ==> 30 <= l <= 300,
        30 <= level <= 300 ==> restored_zoom_spec(Some(StoredValue::Integer(level))) == Some(level as int),
        !(stored matches Some(StoredValue::Integer(_))) ==> restored_zoom_spec(stored) is None,
{
    if 30 <= level <= 300 {
        assert(((level as i32) as int) == level);
    }
}

/// "Actual Size" gives the default level whatever the current level.
pub proof fn law_zoom_reset(current: int)
    ensures
        next_zoom_spec(current, 0) == ZOOM_DEFAULT,
{
}

/// Zooming in never lowers the level, zooming out never raises it, within
/// the range.
pub proof fn law_zoom_monotone(current: int)
    requires
        ZOOM_MIN <= current <= ZOOM_MAX,
    ensures
        next_zoom_spec(current, ZOOM_STEP as int) >= current,
        next_zoom_spec(current, -ZOOM_STEP as int) <= current,
{
}

} // verus!
