//! Accent colors of the high-end duties.

use vstd::prelude::*;

use crate::text::text_eq;

verus! {

/// The accent color of a duty that has none of its own.
pub const DEFAULT_DUTY_COLOR: u32 = 0xf0a057;

/// The accent color of a duty, by its exact name.
pub open spec fn duty_color(duty_name: Seq<char>) -> u32 {
    if duty_name == "The Unending Coil of Bahamut (Ultimate)"@ {
        0xfce100
    } else if duty_name == "The Weapon's Refrain (Ultimate)"@ {
        0x008bfc
    } else if duty_name == "The Epic of Alexander (Ultimate)"@ {
        0xfcaa00
    } else if duty_name == "Dragonsong's Reprise (Ultimate)"@ {
        0xf12916
    } else {
        DEFAULT_DUTY_COLOR
    }
}

/// The accent color of a duty; unknown names get the default color.
pub fn get_color_from_duty(duty_name: &str) -> (r: u32)
    ensures
        r == duty_color(duty_name@),
        r < 0x1000000,
{
    if text_eq(duty_name, "The Unending Coil of Bahamut (Ultimate)") {
        0xfce100
    } else if text_eq(duty_name, "The Weapon's Refrain (Ultimate)") {
        0x008bfc
    } else if text_eq(duty_name, "The Epic of Alexander (Ultimate)") {
        0xfcaa00
    } else if text_eq(duty_name, "Dragonsong's Reprise (Ultimate)") {
        0xf12916
    } else {
        DEFAULT_DUTY_COLOR
    }
}

/// Every name, listed or not, gets a 24-bit RGB color.
pub proof fn lemma_duty_color_is_rgb(duty_name: Seq<char>)
    ensures
        duty_color(duty_name) < 0x1000000,
{
}

} // verus!
