//! Front-end appearance and timing decisions that are pure logic: the theme
//! catalogue and the auto-check timer rule.

use vstd::prelude::*;
use crate::strutil::str_eq;

verus! {

/// The visual themes a front end offers.
#[derive(Debug, Clone, Copy, PartialEq, Eq, Structural)]
pub enum Theme {
    Light,
    Dark,
}

impl Default for Theme {
    fn default() -> (r: Self)
        ensures
            r == Theme::Dark,
    {
        Theme::Dark
    }
}

/// The theme a settings name denotes; anything but `light` (including
/// `auto`) falls back to dark.
pub open spec fn spec_theme_from_name(name: Seq<char>) -> Theme {
    if name == "light"@ {
        Theme::Light
    } else {
        Theme::Dark
    }
}

/// Resolve a theme by its settings name.
pub fn theme_from_name(name: &str) -> (r: Theme)
    ensures
        r == spec_theme_from_name(name@),
{
    if str_eq(name, "light") {
        Theme::Light
    } else {
        Theme::Dark
    }
}

/// Whether a background auto-check is due: auto-checking must be on, no
/// refresh may be in flight, and either no check ever ran or at least the
/// configured interval has passed since the last one. Times are seconds.
pub open spec fn spec_should_auto_check(
    auto_check_updates: bool,
    last_check: Option<i64>,
    now: i64,
    interval_minutes: u32,
    is_refreshing: bool,
) -> bool {
    auto_check_updates && !is_refreshing && match last_check {
        None => true,
        Some(t) => now - t >= (interval_minutes as int) * 60,
    }
}

/// Decide whether the auto-check timer has fired.
pub fn should_auto_check(
    auto_check_updates: bool,
    last_check: Option<i64>,
    now: i64,
    interval_minutes: u32,
    is_refreshing: bool,
) -> (r: bool)
    ensures
        r == spec_should_auto_check(auto_check_updates, last_check, now, interval_minutes,
            is_refreshing),
{
    if !auto_check_updates {
        return false;
    }
    let due = match last_check {
        None => true,
        Some(t) => (now as i128) - (t as i128) >= (interval_minutes as i128) * 60,
    };
    due && !is_refreshing
}

} // verus!
