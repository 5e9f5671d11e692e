//! Bold colour for level tags, by way of `colored`.
//!
//! Whether `colored` paints at all is decided outside this crate: by the
//! environment, by whether standard output is a terminal, and by an override
//! that any thread of the host program may set at any moment. `colored`
//! asks once whether to paint and once more when it writes the colour, so a
//! painter here promises one of three texts: the text as it is, the text in
//! colour, or, where the switch went off between the two, the text with
//! only the closing reset. The code that builds on the painters is verified
//! for all three.

use crate::ansi::ESCAPE;
use crate::level::{painted, reset_sequence, TagColor};
use colored::Colorize;
use vstd::prelude::*;

verus! {

/// What a painter may hand back for `text` in `color`: the text as it is,
/// the text in bold and in that colour, or the text followed by the reset
/// sequence alone.
pub open spec fn is_painting(color: TagColor, text: Seq<char>, out: Seq<char>) -> bool {
    ||| out == text
    ||| out == painted(color, text)
    ||| out == text + reset_sequence()
}

/// Trusted: `colored::Colorize::blue`, then `bold`, then the result's
/// `to_string`. When colouring is off the text comes back as it is; when it
/// is on, it comes back between `ESC [ 1 ; 3 4 m` and `ESC [ 0 m`; when it
/// goes off after `colored` has decided to paint, the opening sequence is
/// left out and only `ESC [ 0 m` follows the text. Text that holds an
/// escape character is left out: `colored` rewrites reset sequences inside
/// it.
#[verifier::external_body]
fn bold_blue(text: &str) -> (out: String)
    ensures
        !text@.contains(ESCAPE) ==> is_painting(TagColor::Blue, text@, out@),
{
    text.blue().bold().to_string()
}

/// Trusted: `colored::Colorize::yellow`, then `bold`, then the result's
/// `to_string`. As [`bold_blue`], with `ESC [ 1 ; 3 3 m` in front.
#[verifier::external_body]
fn bold_yellow(text: &str) -> (out: String)
    ensures
        !text@.contains(ESCAPE) ==> is_painting(TagColor::Yellow, text@, out@),
{
    text.yellow().bold().to_string()
}

/// Trusted: `colored::Colorize::red`, then `bold`, then the result's
/// `to_string`. As [`bold_blue`], with `ESC [ 1 ; 3 1 m` in front.
#[verifier::external_body]
fn bold_red(text: &str) -> (out: String)
    ensures
        !text@.contains(ESCAPE) ==> is_painting(TagColor::Red, text@, out@),
{
    text.red().bold().to_string()
}

/// `text` in bold and in `color`, if colouring is on; `text` itself if it
/// is off; `text` and a reset sequence if it goes off in between.
pub fn paint(color: TagColor, text: &str) -> (out: String)
    ensures
        !text@.contains(ESCAPE) ==> is_painting(color, text@, out@),
{
    match color {
        TagColor::Blue => bold_blue(text),
        TagColor::Yellow => bold_yellow(text),
        TagColor::Red => bold_red(text),
    }
}

} // verus!
