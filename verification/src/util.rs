//! The two prefixes of a line: the level tag and the timestamp.

use crate::level::{bracketed, named_level, tags_are_printable, Level};
use crate::paint::paint;
use crate::text::{ascii_equals, join3};
use vstd::prelude::*;

verus! {

/// What [`format_level`] may hand back for `name`.
///
/// Without colour it is `[name] `, whatever the name. With colour, one of
/// the four level names gives its tag: in bold and in the level's colour
/// where colouring is on, plain where it is off, and plain with a closing
/// reset sequence where it is switched off while the tag is painted. Any
/// other name is no tag and comes back as it is.
pub open spec fn is_level_tag(name: Seq<char>, color: bool, tag: Seq<char>) -> bool {
    if !color {
        tag == bracketed(name)
    } else {
        match named_level(name) {
            Some(level) => {
                ||| tag == level.plain_tag()
                ||| tag == level.painted_tag()
                ||| tag == level.reset_tag()
            },
            None => tag == name,
        }
    }
}

/// The pattern that the host's clock writes its reading in: date and time
/// of day to the second, as `YYYY-MM-DD HH:MM:SS`.
pub const TIMESTAMP_PATTERN: &'static str = "%Y-%m-%d %H:%M:%S";

/// The timestamp prefix of a line: the clock's reading between `[` and
/// `] ` with timestamps, nothing without them.
pub open spec fn time_prefix_text(timestamp: bool, reading: Seq<char>) -> Seq<char> {
    if timestamp {
        bracketed(reading)
    } else {
        Seq::<char>::empty()
    }
}

/// The level that `name` names, if it names one.
pub fn level_named(name: &str) -> (level: Option<Level>)
    ensures
        level == named_level(name@),
{
    proof {
        tags_are_printable(Level::Info);
        tags_are_printable(Level::Warn);
        tags_are_printable(Level::Error);
        tags_are_printable(Level::Debug);
    }
    if !name.is_ascii() {
        None
    } else if ascii_equals(name, Level::Info.label()) {
        Some(Level::Info)
    } else if ascii_equals(name, Level::Warn.label()) {
        Some(Level::Warn)
    } else if ascii_equals(name, Level::Error.label()) {
        Some(Level::Error)
    } else if ascii_equals(name, Level::Debug.label()) {
        Some(Level::Debug)
    } else {
        None
    }
}

/// `name` between square brackets, followed by one space.
pub fn bracket(name: &str) -> (out: String)
    ensures
        out@ == bracketed(name@),
{
    proof {
        reveal_strlit("[");
        reveal_strlit("] ");
    }
    let out = join3("[", name, "] ");
    assert(out@ =~= bracketed(name@));
    out
}

/// The tag for the level called `level`, coloured if `color` is set and
/// colouring is on.
pub fn format_level(level: &str, color: bool) -> (tag: String)
    ensures
        is_level_tag(level@, color, tag@),
{
    if !color {
        return bracket(level);
    }
    match level_named(level) {
        None => String::from_str(level),
        Some(named) => {
            let plain = bracket(named.label());
            proof {
                tags_are_printable(named);
            }
            match named.tag_color() {
                Some(tint) => paint(tint, plain.as_str()),
                None => plain,
            }
        },
    }
}

/// The timestamp prefix for the clock's reading `stamp`.
pub fn time_prefix(stamp: &str) -> (prefix: String)
    ensures
        prefix@ == bracketed(stamp@),
{
    bracket(stamp)
}

/// The timestamp prefix for the clock's reading `reading`:
/// `[YYYY-MM-DD HH:MM:SS] ` if `timestamp` is set, nothing otherwise. The
/// clock is read by the caller, in [`TIMESTAMP_PATTERN`]; without
/// timestamps the reading is not looked at.
pub fn format_time(timestamp: bool, reading: &str) -> (prefix: String)
    ensures
        prefix@ == time_prefix_text(timestamp, reading@),
{
    if timestamp {
        time_prefix(reading)
    } else {
        String::new()
    }
}

} // verus!
