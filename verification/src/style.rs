//! Trusted binding to the `owo_colors` crate: wrapping a single character in
//! bold styling and a 24-bit foreground color.

use owo_colors::OwoColorize;
use vstd::prelude::*;

verus! {

/// The text produced when `c` is wrapped in bold styling and a 24-bit
/// foreground color `(r, g, b)`. `owo_colors` formats this unconditionally
/// from the four arguments alone.
pub uninterp spec fn styled_of(c: char, r: u8, g: u8, b: u8) -> Seq<char>;

/// Relies on `owo_colors::OwoColorize::color` with `owo_colors::Rgb` and
/// `bold`: both emit fixed ANSI escape sequences around the character,
/// depending on nothing but the character and the three channel values. The
/// escape sequences hold only the escape byte, brackets, digits, semicolons
/// and `m`, so the output contains a line break only if the character itself
/// is one.
#[verifier::external_body]
pub(crate) fn styled_glyph(c: char, r: u8, g: u8, b: u8) -> (s: String)
    ensures
        s@ == styled_of(c, r, g, b),
        c != '\n' ==> !s@.contains('\n'),
{
    format!("{}", c.color(owo_colors::Rgb(r, g, b)).bold())
}

} // verus!
