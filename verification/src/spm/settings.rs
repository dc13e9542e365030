//! Settings that come as text from the environment.

use vstd::prelude::*;

use crate::text;

verus! {

/// An environment switch is on.
pub open spec fn switch_is_on(value: Option<Seq<char>>) -> bool {
    value matches Some(v) && (v == "1"@ || v == "true"@ || v == "TRUE"@ || v == "yes"@ || v
        == "YES"@)
}

/// A count that a setting gives: the number it holds if that is a positive one,
/// else `fallback`.
pub open spec fn count_setting(value: Option<Seq<char>>, fallback: usize) -> usize {
    match value {
        Some(v) => match text::parsed_usize(v) {
            Some(n) => if n > 0 {
                n
            } else {
                fallback
            },
            None => fallback,
        },
        None => fallback,
    }
}

/// The characters of a setting, if it is set.
pub open spec fn setting_chars(value: Option<&str>) -> Option<Seq<char>> {
    match value {
        Some(v) => Some(v@),
        None => None,
    }
}

/// Reads an environment switch. Anything but the five known spellings of yes is
/// off.
pub fn read_switch(value: Option<&str>) -> (res: bool)
    ensures
        res == switch_is_on(setting_chars(value)),
{
    match value {
        Some(v) => text::same_text(v, "1") || text::same_text(v, "true") || text::same_text(
            v,
            "TRUE",
        ) || text::same_text(v, "yes") || text::same_text(v, "YES"),
        None => false,
    }
}

/// Reads a setting that holds a positive count.
pub fn read_count(value: Option<&str>, fallback: usize) -> (res: usize)
    ensures
        res == count_setting(setting_chars(value), fallback),
{
    match value {
        Some(v) => match text::parse_usize(v) {
            Some(n) => if n > 0 {
                n
            } else {
                fallback
            },
            None => fallback,
        },
        None => fallback,
    }
}

} // verus!
