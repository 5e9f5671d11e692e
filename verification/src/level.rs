//! The severity of a message, the stream it goes to and the tag it carries.

use crate::ansi::{csi, ESCAPE};
use vstd::utf8::is_ascii_chars;
use vstd::prelude::*;

verus! {

/// The severity category of a message.
#[derive(Clone, Copy, Debug, PartialEq, Eq, Structural)]
pub enum Level {
    /// No category: the line carries no tag.
    Plain,
    /// Something worth knowing.
    Info,
    /// Something that may be wrong.
    Warn,
    /// Something that went wrong.
    Error,
    /// Detail for developers, written by debug builds only.
    Debug,
}

/// The stream a message is written to.
#[derive(Clone, Copy, Debug, PartialEq, Eq, Structural)]
pub enum Destination {
    /// Standard output.
    Stdout,
    /// Standard error.
    Stderr,
}

/// The colours that tags are painted in.
#[derive(Clone, Copy, Debug, PartialEq, Eq, Structural)]
pub enum TagColor {
    /// Informational tags.
    Blue,
    /// Warning and debug tags.
    Yellow,
    /// Error tags.
    Red,
}

impl TagColor {
    /// The foreground colour's number in a graphics sequence.
    pub open spec fn code(self) -> Seq<char> {
        match self {
            TagColor::Blue => seq!['3', '4'],
            TagColor::Yellow => seq!['3', '3'],
            TagColor::Red => seq!['3', '1'],
        }
    }
}

impl Level {
    /// The word inside the tag's brackets; empty for [`Level::Plain`].
    pub open spec fn name(self) -> Seq<char> {
        match self {
            Level::Plain => Seq::<char>::empty(),
            Level::Info => seq!['I', 'N', 'F', 'O'],
            Level::Warn => seq!['W', 'A', 'R', 'N'],
            Level::Error => seq!['E', 'R', 'R', 'O', 'R'],
            Level::Debug => seq!['D', 'E', 'B', 'U', 'G'],
        }
    }

    /// The colour of the tag; [`Level::Plain`] has no tag and no colour.
    pub open spec fn color(self) -> Option<TagColor> {
        match self {
            Level::Plain => None,
            Level::Info => Some(TagColor::Blue),
            Level::Warn => Some(TagColor::Yellow),
            Level::Error => Some(TagColor::Red),
            Level::Debug => Some(TagColor::Yellow),
        }
    }

    /// Errors go to standard error, everything else to standard output.
    pub open spec fn destination(self) -> Destination {
        match self {
            Level::Error => Destination::Stderr,
            _ => Destination::Stdout,
        }
    }

    /// The tag that opens a line without colour: `[NAME] ` with its
    /// trailing space, or nothing for [`Level::Plain`].
    pub open spec fn plain_tag(self) -> Seq<char> {
        match self {
            Level::Plain => Seq::<char>::empty(),
            _ => bracketed(self.name()),
        }
    }

    /// The tag that opens a line in colour: the plain tag in bold and in
    /// the level's colour, or nothing for [`Level::Plain`].
    pub open spec fn painted_tag(self) -> Seq<char> {
        match self.color() {
            None => Seq::<char>::empty(),
            Some(color) => painted(color, self.plain_tag()),
        }
    }

    /// The tag that opens a line when colouring is switched off while the
    /// tag is being painted: the plain tag, then the sequence that resets
    /// the terminal; nothing for [`Level::Plain`].
    pub open spec fn reset_tag(self) -> Seq<char> {
        match self.color() {
            None => Seq::<char>::empty(),
            Some(_) => self.plain_tag() + reset_sequence(),
        }
    }

    /// See [`Level::destination`].
    pub fn stream(self) -> (destination: Destination)
        ensures
            destination == self.destination(),
    {
        match self {
            Level::Error => Destination::Stderr,
            _ => Destination::Stdout,
        }
    }

    /// See [`Level::color`].
    pub fn tag_color(self) -> (color: Option<TagColor>)
        ensures
            color == self.color(),
    {
        match self {
            Level::Plain => None,
            Level::Info => Some(TagColor::Blue),
            Level::Warn => Some(TagColor::Yellow),
            Level::Error => Some(TagColor::Red),
            Level::Debug => Some(TagColor::Yellow),
        }
    }

    /// See [`Level::name`].
    pub fn label(self) -> (name: &'static str)
        ensures
            name@ == self.name(),
    {
        proof {
            reveal_strlit("");
            reveal_strlit("INFO");
            reveal_strlit("WARN");
            reveal_strlit("ERROR");
            reveal_strlit("DEBUG");
        }
        let name = match self {
            Level::Plain => "",
            Level::Info => "INFO",
            Level::Warn => "WARN",
            Level::Error => "ERROR",
            Level::Debug => "DEBUG",
        };
        assert(name@ =~= self.name());
        name
    }
}

/// The level that `name` names: one of `INFO`, `WARN`, `ERROR` and `DEBUG`,
/// in capitals. No name stands for [`Level::Plain`].
pub open spec fn named_level(name: Seq<char>) -> Option<Level> {
    if name == Level::Info.name() {
        Some(Level::Info)
    } else if name == Level::Warn.name() {
        Some(Level::Warn)
    } else if name == Level::Error.name() {
        Some(Level::Error)
    } else if name == Level::Debug.name() {
        Some(Level::Debug)
    } else {
        None
    }
}

/// `name` between square brackets, followed by one space.
pub open spec fn bracketed(name: Seq<char>) -> Seq<char> {
    seq!['['] + name + seq![']', ' ']
}

/// The sequence that resets the terminal's colours and styles: `ESC [ 0 m`.
pub open spec fn reset_sequence() -> Seq<char> {
    csi(seq!['0', 'm'])
}

/// `text` in bold and in `color`: the graphics sequence `ESC [ 1 ; NN m`,
/// the text, and the sequence that resets the terminal.
pub open spec fn painted(color: TagColor, text: Seq<char>) -> Seq<char> {
    csi(seq!['1', ';'] + color.code() + seq!['m']) + text + reset_sequence()
}

/// A tag is made of letters, brackets and a space: it is seven-bit text and
/// holds no escape character.
pub proof fn tags_are_printable(level: Level)
    ensures
        is_ascii_chars(level.name()),
        is_ascii_chars(level.plain_tag()),
        !level.plain_tag().contains(ESCAPE),
{
    let tag = level.plain_tag();
    match level {
        Level::Plain => {},
        Level::Info => {
            assert(tag =~= seq!['[', 'I', 'N', 'F', 'O', ']', ' ']);
        },
        Level::Warn => {
            assert(tag =~= seq!['[', 'W', 'A', 'R', 'N', ']', ' ']);
        },
        Level::Error => {
            assert(tag =~= seq!['[', 'E', 'R', 'R', 'O', 'R', ']', ' ']);
        },
        Level::Debug => {
            assert(tag =~= seq!['[', 'D', 'E', 'B', 'U', 'G', ']', ' ']);
        },
    }
    assert(forall|i: int| 0 <= i < tag.len() ==> ' ' <= #[trigger] tag[i] <= ']');
}

/// Each level is the one that its own name names.
pub proof fn name_round_trip(level: Level)
    requires
        level != Level::Plain,
    ensures
        named_level(level.name()) == Some(level),
{
    assert(Level::Info.name().len() == 4);
    assert(Level::Warn.name().len() == 4);
    assert(Level::Error.name().len() == 5);
    assert(Level::Debug.name().len() == 5);
    assert(Level::Info.name()[0] == 'I');
    assert(Level::Warn.name()[0] == 'W');
    assert(Level::Error.name()[0] == 'E');
    assert(Level::Debug.name()[0] == 'D');
}

} // verus!
