//! The leveled print operations: each decides whether a message is let
//! through and, if it is, renders the line and names the stream for it.

use crate::config::Config;
use crate::level::{name_round_trip, Destination, Level};
use crate::text::join3;
use crate::util::{format_level, format_time, time_prefix_text};
use crate::verbosity::{level_or_default, required_level, Verbosity};
use vstd::prelude::*;

verus! {

/// One message that was let through, ready to be written.
#[derive(Debug, PartialEq, Eq)]
pub struct LogRecord {
    /// The level that the message asked for.
    pub required_level: u8,
    /// The severity category.
    pub level_tag: Level,
    /// The line, without the line end that closes it on the stream.
    pub rendered_text: String,
    /// The stream that the line goes to.
    pub destination: Destination,
}

/// The line for `message` behind `tag`: the tag, the timestamp prefix for
/// the clock's reading `now` if timestamps are configured, and the message.
pub open spec fn line_text(tag: Seq<char>, timestamp: bool, now: Seq<char>, message: Seq<char>) -> Seq<char> {
    tag + time_prefix_text(timestamp, now) + message
}

/// Whether `text` is a line for `message` at `level` under `config`: the
/// line behind the level's plain tag or, only if colour is configured, the
/// line behind its painted tag or behind its plain tag with a closing reset
/// sequence. A line without tag has one form only.
pub open spec fn is_rendering(level: Level, config: Config, now: Seq<char>, message: Seq<char>, text: Seq<char>) -> bool {
    ||| text == line_text(level.plain_tag(), config.timestamp, now, message)
    ||| config.color && text == line_text(level.painted_tag(), config.timestamp, now, message)
    ||| config.color && text == line_text(level.reset_tag(), config.timestamp, now, message)
}

/// Whether a message at `level` that asks for `required` is written: it
/// must not ask for more than the threshold, and a debug message needs a
/// debug build as well.
pub open spec fn is_emitted(level: Level, config: Config, verbosity: Verbosity, required: u8) -> bool {
    verbosity.level() >= required && (level == Level::Debug ==> config.debug_build)
}

/// A section header: the message between `=== ` and ` ===`, and a line end
/// that leaves a blank line after the header on the stream.
pub open spec fn section_text(message: Seq<char>) -> Seq<char> {
    seq!['=', '=', '=', ' '] + message + seq![' ', '=', '=', '=', '\n']
}

/// When a message is written. Any message but a debug message is written
/// exactly when the threshold is at least the level it asks for, and at
/// least one if it names no level. A debug message needs a debug build as
/// well: without one it is never written, whatever the threshold.
pub proof fn emitted_at_threshold(level: Level, config: Config, verbosity: Verbosity, asked: Option<u8>)
    ensures
        level != Level::Debug ==> (is_emitted(level, config, verbosity, required_level(asked))
            <==> verbosity.level() >= required_level(asked)),
        level != Level::Debug ==> (is_emitted(level, config, verbosity, required_level(None))
            <==> verbosity.level() >= 1),
        is_emitted(Level::Debug, config, verbosity, required_level(asked)) <==> config.debug_build
            && verbosity.level() >= required_level(asked),
        !config.debug_build ==> !is_emitted(Level::Debug, config, verbosity, required_level(asked)),
{
}

/// Without colour the line is fixed: the plain tag, the timestamp prefix
/// and the message. Without timestamps as well, the clock's reading plays
/// no part in it.
pub proof fn plain_line_is_exact(level: Level, config: Config, now: Seq<char>, message: Seq<char>, text: Seq<char>)
    requires
        !config.color,
        is_rendering(level, config, now, message, text),
    ensures
        text == level.plain_tag() + time_prefix_text(config.timestamp, now) + message,
        !config.timestamp ==> text == level.plain_tag() + message,
{
    assert(!config.timestamp ==> text =~= level.plain_tag() + message);
}

/// A section header holds the frame and the message and nothing else:
/// never a tag, never a timestamp.
pub proof fn section_is_frame_and_message(message: Seq<char>)
    ensures
        section_text(message).len() == message.len() + 9,
        section_text(message).subrange(0, 4) == seq!['=', '=', '=', ' '],
        section_text(message).subrange(4, 4 + message.len() as int) == message,
        section_text(message).subrange(4 + message.len() as int, 9 + message.len() as int)
            == seq![' ', '=', '=', '=', '\n'],
{
    let text = section_text(message);
    let n = message.len() as int;
    assert(text.subrange(0, 4) =~= seq!['=', '=', '=', ' ']);
    assert(text.subrange(4, 4 + n) =~= message);
    assert(text.subrange(4 + n, 9 + n) =~= seq![' ', '=', '=', '=', '\n']);
}

impl LogRecord {
    /// Whether this is the record of `message` at `level`, asking for
    /// `required`, under `config`, with the clock reading `now`.
    pub open spec fn is_record_of(&self, level: Level, required: u8, config: Config, now: Seq<char>, message: Seq<char>) -> bool {
        &&& self.required_level == required
        &&& self.level_tag == level
        &&& self.destination == level.destination()
        &&& is_rendering(level, config, now, message, self.rendered_text@)
    }

    /// What goes onto the stream: the line and a line end.
    pub open spec fn written(&self) -> Seq<char> {
        self.rendered_text@.push('\n')
    }

    /// The record of a line made of `tag`, `time` and `message`.
    pub fn compose(level: Level, required: u8, tag: &str, time: &str, message: &str) -> (record: LogRecord)
        ensures
            record.required_level == required,
            record.level_tag == level,
            record.destination == level.destination(),
            record.rendered_text@ == tag@ + time@ + message@,
    {
        LogRecord {
            required_level: required,
            level_tag: level,
            rendered_text: join3(tag, time, message),
            destination: level.stream(),
        }
    }

    /// See [`LogRecord::written`].
    pub fn output(&self) -> (text: String)
        ensures
            text@ == self.written(),
    {
        let mut text = self.rendered_text.clone();
        text.append("\n");
        proof {
            reveal_strlit("\n");
            assert(text@ =~= self.written());
        }
        text
    }
}

/// The leveled print operation. The message is written exactly when the
/// threshold is at least the level it asks for, one if it names none, and,
/// for a debug message, the build is a debug build. The line is the level's
/// tag, the timestamp prefix for the clock's reading `now` and the message;
/// errors go to standard error and everything else to standard output.
pub fn log(verbosity: &Verbosity, config: &Config, tag: Level, level: Option<u8>, now: &str, message: &str) -> (record: Option<LogRecord>)
    ensures
        record is Some <==> is_emitted(tag, *config, *verbosity, required_level(level)),
        record matches Some(r) ==> r.is_record_of(tag, required_level(level), *config, now@, message@),
        record matches Some(r) ==> (!config.color && !config.timestamp ==> r.rendered_text@
            == tag.plain_tag() + message@),
{
    let required = level_or_default(level);
    if !verbosity.should_emit(required) {
        return None;
    }
    if !config.debug_build {
        if let Level::Debug = tag {
            return None;
        }
    }
    let prefix = match tag {
        Level::Plain => String::new(),
        _ => format_level(tag.label(), config.color),
    };
    let time = format_time(config.timestamp, now);
    let record = LogRecord::compose(tag, required, prefix.as_str(), time.as_str(), message);
    proof {
        if tag != Level::Plain {
            name_round_trip(tag);
        }
        if !config.color && !config.timestamp {
            assert(record.rendered_text@ =~= tag.plain_tag() + message@);
        }
    }
    Some(record)
}

/// Writes `message` with no tag, to standard output. `now` is the clock's
/// reading, for the timestamp prefix.
pub fn verbose(verbosity: &Verbosity, config: &Config, level: Option<u8>, now: &str, message: &str) -> (record: Option<LogRecord>)
    ensures
        record is Some <==> verbosity.level() >= required_level(level),
        record matches Some(r) ==> r.is_record_of(Level::Plain, required_level(level), *config, now@, message@),
        record matches Some(r) ==> (!config.timestamp ==> r.rendered_text@ == message@),
{
    let record = log(verbosity, config, Level::Plain, level, now, message);
    proof {
        if record is Some && !config.timestamp {
            assert(record->0.rendered_text@ =~= message@);
        }
    }
    record
}

/// Writes `message` behind an `[INFO] ` tag, to standard output. `now` is
/// the clock's reading, for the timestamp prefix.
pub fn vinfo(verbosity: &Verbosity, config: &Config, level: Option<u8>, now: &str, message: &str) -> (record: Option<LogRecord>)
    ensures
        record is Some <==> verbosity.level() >= required_level(level),
        record matches Some(r) ==> r.is_record_of(Level::Info, required_level(level), *config, now@, message@),
        record matches Some(r) ==> (!config.color && !config.timestamp ==> r.rendered_text@
            == Level::Info.plain_tag() + message@),
{
    log(verbosity, config, Level::Info, level, now, message)
}

/// Writes `message` behind a `[WARN] ` tag, to standard output. `now` is
/// the clock's reading, for the timestamp prefix.
pub fn vwarn(verbosity: &Verbosity, config: &Config, level: Option<u8>, now: &str, message: &str) -> (record: Option<LogRecord>)
    ensures
        record is Some <==> verbosity.level() >= required_level(level),
        record matches Some(r) ==> r.is_record_of(Level::Warn, required_level(level), *config, now@, message@),
        record matches Some(r) ==> (!config.color && !config.timestamp ==> r.rendered_text@
            == Level::Warn.plain_tag() + message@),
{
    log(verbosity, config, Level::Warn, level, now, message)
}

/// Writes `message` behind an `[ERROR] ` tag, to standard error. `now` is
/// the clock's reading, for the timestamp prefix.
pub fn verror(verbosity: &Verbosity, config: &Config, level: Option<u8>, now: &str, message: &str) -> (record: Option<LogRecord>)
    ensures
        record is Some <==> verbosity.level() >= required_level(level),
        record matches Some(r) ==> r.is_record_of(Level::Error, required_level(level), *config, now@, message@),
        record matches Some(r) ==> (!config.color && !config.timestamp ==> r.rendered_text@
            == Level::Error.plain_tag() + message@),
{
    log(verbosity, config, Level::Error, level, now, message)
}

/// Writes `message` behind a `[DEBUG] ` tag, to standard output, in a debug
/// build; in any other build it writes nothing, whatever the threshold.
/// `now` is the clock's reading, for the timestamp prefix.
pub fn vebug(verbosity: &Verbosity, config: &Config, level: Option<u8>, now: &str, message: &str) -> (record: Option<LogRecord>)
    ensures
        record is Some <==> config.debug_build && verbosity.level() >= required_level(level),
        record matches Some(r) ==> r.is_record_of(Level::Debug, required_level(level), *config, now@, message@),
        record matches Some(r) ==> (!config.color && !config.timestamp ==> r.rendered_text@
            == Level::Debug.plain_tag() + message@),
{
    log(verbosity, config, Level::Debug, level, now, message)
}

/// Writes `message` as a section header, to standard output. A header has
/// no tag and no timestamp, so no setting changes it.
pub fn vsection(verbosity: &Verbosity, level: Option<u8>, message: &str) -> (record: Option<LogRecord>)
    ensures
        record is Some <==> verbosity.level() >= required_level(level),
        record matches Some(r) ==> r.required_level == required_level(level),
        record matches Some(r) ==> r.level_tag == Level::Plain,
        record matches Some(r) ==> r.destination == Destination::Stdout,
        record matches Some(r) ==> r.rendered_text@ == section_text(message@),
{
    let required = level_or_default(level);
    if !verbosity.should_emit(required) {
        return None;
    }
    let record = LogRecord::compose(Level::Plain, required, "=== ", message, " ===\n");
    proof {
        reveal_strlit("=== ");
        reveal_strlit(" ===\n");
        assert(record.rendered_text@ =~= section_text(message@));
    }
    Some(record)
}

} // verus!
