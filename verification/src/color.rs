//! From a colour written in hexadecimal to its hue.

use vstd::prelude::*;

verus! {

/// The hue, in degrees of the colour circle, that `easy_color` finds for a
/// colour written in hexadecimal (`#RGB`, `#RRGGBB` or `#RRGGBBAA`), or
/// `None` where it takes the text for no such colour.
pub uninterp spec fn hex_hue(color: Seq<char>) -> Option<u32>;

/// Calls `easy_color`: parses the text with `Hex::try_from`, converts the
/// colour with `IntoHSV::to_hsv` and takes `HSV::hue` of it. The contract
/// claims that the outcome is a function of the text, and that a hue lies
/// between 0 and 360 degrees, both ends included, as `HSV` documents it.
/// Text outside ASCII is kept away, since the parser cuts its input at byte
/// positions.
#[verifier::external_body]
fn easy_color_hue(color: &str) -> (hue: Option<u32>)
    requires
        color.is_ascii(),
    ensures
        hue == hex_hue(color@),
        hue matches Some(degrees) ==> degrees <= 360,
{
    match easy_color::Hex::try_from(color) {
        Ok(hex) => Some(easy_color::IntoHSV::to_hsv(&hex).hue()),
        Err(_) => None,
    }
}

/// What [`hue_degrees`] returns: text that is not ASCII is no colour; of any
/// other text the parser decides.
pub open spec fn spec_hue_degrees(color: &str) -> Option<u32> {
    if color.is_ascii() {
        hex_hue(color@)
    } else {
        None
    }
}

/// The hue of a colour written in hexadecimal, in degrees, or `None` if
/// the text is no colour.
pub fn hue_degrees(color: &str) -> (hue: Option<u32>)
    ensures
        hue == spec_hue_degrees(color),
        hue matches Some(degrees) ==> degrees <= 360,
{
    if color.is_ascii() {
        easy_color_hue(color)
    } else {
        None
    }
}

} // verus!
