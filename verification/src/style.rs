//! Terminal styling of text with ANSI escape sequences.

use owo_colors::OwoColorize;
use vstd::prelude::*;

verus! {

/// `text` between the sequences that switch faint rendering on and reset all attributes.
pub open spec fn dimmed_text(text: Seq<char>) -> Seq<char> {
    seq!['\u{1b}', '[', '2', 'm'] + text + seq!['\u{1b}', '[', '0', 'm']
}

/// `text` between the sequences that select a magenta foreground and the default foreground.
pub open spec fn magenta_text(text: Seq<char>) -> Seq<char> {
    seq!['\u{1b}', '[', '3', '5', 'm'] + text + seq!['\u{1b}', '[', '3', '9', 'm']
}

/// `text` between the sequences that select a cyan foreground and the default foreground.
pub open spec fn cyan_text(text: Seq<char>) -> Seq<char> {
    seq!['\u{1b}', '[', '3', '6', 'm'] + text + seq!['\u{1b}', '[', '3', '9', 'm']
}

/// Renders `text` through `owo_colors::OwoColorize::dimmed`.
///
/// Trusted: the rendering is `ESC[2m`, the text as it stands, then `ESC[0m`.
#[verifier::external_body]
pub(crate) fn dimmed(text: &str) -> (styled: String)
    ensures
        styled@ == dimmed_text(text@),
{
    text.dimmed().to_string()
}

/// Renders `text` through `owo_colors::OwoColorize::magenta`.
///
/// Trusted: the rendering is `ESC[35m`, the text as it stands, then `ESC[39m`.
#[verifier::external_body]
pub(crate) fn magenta(text: &str) -> (styled: String)
    ensures
        styled@ == magenta_text(text@),
{
    text.magenta().to_string()
}

/// Renders `text` through `owo_colors::OwoColorize::cyan`.
///
/// Trusted: the rendering is `ESC[36m`, the text as it stands, then `ESC[39m`.
#[verifier::external_body]
pub(crate) fn cyan(text: &str) -> (styled: String)
    ensures
        styled@ == cyan_text(text@),
{
    text.cyan().to_string()
}

} // verus!
