//! Foreground colours for the lines that frame a listing.

use owo_colors::OwoColorize;
use vstd::prelude::*;

verus! {

/// The escape sequence that sets the foreground to green.
pub open spec fn green_on() -> Seq<char> {
    seq!['\u{1b}', '[', '3', '2', 'm']
}

/// The escape sequence that sets the foreground to red.
pub open spec fn red_on() -> Seq<char> {
    seq!['\u{1b}', '[', '3', '1', 'm']
}

/// The escape sequence that gives the foreground its default colour back.
pub open spec fn tint_off() -> Seq<char> {
    seq!['\u{1b}', '[', '3', '9', 'm']
}

/// A text in green.
pub open spec fn green_text(text: Seq<char>) -> Seq<char> {
    green_on() + text + tint_off()
}

/// A text in red.
pub open spec fn red_text(text: Seq<char>) -> Seq<char> {
    red_on() + text + tint_off()
}

/// Formats what `owo_colors::OwoColorize::green` makes of the text. Not
/// proved: that it writes the escape sequence for a green foreground, the
/// text as it is, and the sequence for the default foreground.
#[verifier::external_body]
pub(crate) fn green(text: &str) -> (tinted: String)
    ensures
        tinted@ == green_text(text@),
{
    format!("{}", text.green())
}

/// Formats what `owo_colors::OwoColorize::red` makes of the text. Not proved:
/// that it writes the escape sequence for a red foreground, the text as it
/// is, and the sequence for the default foreground.
#[verifier::external_body]
pub(crate) fn red(text: &str) -> (tinted: String)
    ensures
        tinted@ == red_text(text@),
{
    format!("{}", text.red())
}

} // verus!
