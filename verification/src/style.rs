//! Colors for the status word, by way of the `colorful` crate.

use vstd::prelude::*;

verus! {

/// What a terminal is sent to show `text` in yellow: the escape sequence
/// that picks color 3 of the 256-color palette, the text itself, and the
/// sequence that resets all attributes.
pub open spec fn yellow_text(text: Seq<char>) -> Seq<char> {
    "\x1b[38;5;3m"@ + text + "\x1b[0m"@
}

/// What a terminal is sent to show `text` in green, color 2 of the palette.
pub open spec fn green_text(text: Seq<char>) -> Seq<char> {
    "\x1b[38;5;2m"@ + text + "\x1b[0m"@
}

/// Calls `colorful::Colorful::yellow` on `text` and renders the colored
/// string it returns. Trusted: the result is `text` between the escape
/// sequence for foreground color 3 and the reset sequence, which is what
/// the crate's `Display` for `CString` writes for a string with a
/// foreground color and no background or style.
#[verifier::external_body]
pub(crate) fn yellow(text: &str) -> (painted: String)
    ensures
        painted@ == yellow_text(text@),
{
    colorful::Colorful::yellow(text).to_string()
}

/// Calls `colorful::Colorful::green` on `text` and renders the colored
/// string it returns. Trusted: the result is `text` between the escape
/// sequence for foreground color 2 and the reset sequence.
#[verifier::external_body]
pub(crate) fn green(text: &str) -> (painted: String)
    ensures
        painted@ == green_text(text@),
{
    colorful::Colorful::green(text).to_string()
}

/// Calls `colorful::core::color_string::CString::new` on `text` and renders
/// the string it returns. Trusted: a string without color or style is
/// rendered as its text and nothing else.
#[verifier::external_body]
pub(crate) fn plain(text: &str) -> (unpainted: String)
    ensures
        unpainted@ == text@,
{
    colorful::core::color_string::CString::new(text).to_string()
}

} // verus!
