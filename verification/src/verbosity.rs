//! The verbosity threshold and the test that every message has to meet.

use vstd::prelude::*;
use vstd::utf8::is_ascii_chars;

verus! {

/// The threshold at which nothing is written.
pub const SILENT: u8 = 0;

/// The environment variable that the threshold is read from.
pub const ENV_VARIABLE: &'static str = "VERBOSE";

/// The level of a message that names none, and the threshold that
/// [`Verbosity::enable`] stores.
pub const DEFAULT_LEVEL: u8 = 1;

/// The verbosity threshold: messages at or below it are written.
#[derive(Clone, Copy, Debug, PartialEq, Eq)]
pub struct Verbosity {
    level: u8,
}

impl Verbosity {
    /// The threshold this value holds.
    pub closed spec fn level(self) -> u8 {
        self.level
    }

    /// This value with its threshold replaced by `level`.
    pub closed spec fn with_level(self, level: u8) -> Verbosity {
        Verbosity { level }
    }

    /// Whether a message that asks for `required` is let through.
    pub open spec fn emits(self, required: u8) -> bool {
        self.level() >= required
    }

    /// A silent threshold.
    pub fn new() -> (v: Verbosity)
        ensures
            v.level() == SILENT,
    {
        Verbosity { level: SILENT }
    }

    /// A threshold of `level`.
    pub fn at(level: u8) -> (v: Verbosity)
        ensures
            v.level() == level,
    {
        Verbosity { level }
    }

    /// Stores `level`, replacing whatever was there.
    pub fn set(&mut self, level: u8)
        ensures
            *final(self) == old(self).with_level(level),
            final(self).level() == level,
    {
        self.level = level;
    }

    /// Stores [`DEFAULT_LEVEL`].
    pub fn enable(&mut self)
        ensures
            *final(self) == old(self).with_level(DEFAULT_LEVEL),
            final(self).level() == DEFAULT_LEVEL,
    {
        self.level = DEFAULT_LEVEL;
    }

    /// The current threshold.
    pub fn get(&self) -> (level: u8)
        ensures
            level == self.level(),
    {
        self.level
    }

    /// Lets a message through exactly when the threshold is at least
    /// `required`.
    pub fn should_emit(&self, required: u8) -> (pass: bool)
        ensures
            pass == self.emits(required),
    {
        self.level >= required
    }

    /// Reading the threshold after storing `level` gives `level` back,
    /// whatever was stored before.
    pub proof fn set_then_get(self, level: u8)
        ensures
            self.with_level(level).level() == level,
    {
    }

    /// Reading the threshold after [`Verbosity::enable`] gives one.
    pub proof fn enable_then_get(self)
        ensures
            self.with_level(DEFAULT_LEVEL).level() == 1,
    {
    }

    /// Storing twice keeps only the second threshold.
    pub proof fn set_overwrites(self, first: u8, second: u8)
        ensures
            self.with_level(first).with_level(second) == self.with_level(second),
    {
    }

    /// A message is let through exactly when it asks for no more than the
    /// threshold; a silent threshold passes only messages that ask for
    /// level zero.
    pub proof fn emits_up_to_threshold(self, required: u8)
        ensures
            self.emits(required) <==> required <= self.level(),
            self.with_level(SILENT).emits(required) <==> required == 0,
    {
    }

    /// Raising the threshold never silences a message that passed.
    pub proof fn emits_is_monotone(self, higher: Verbosity, required: u8)
        requires
            self.level() <= higher.level(),
            self.emits(required),
        ensures
            higher.emits(required),
    {
    }
}

/// The level a message asks for: the one it names, or [`DEFAULT_LEVEL`].
pub open spec fn required_level(level: Option<u8>) -> u8 {
    match level {
        Some(l) => l,
        None => DEFAULT_LEVEL,
    }
}

/// See [`required_level`].
pub fn level_or_default(level: Option<u8>) -> (required: u8)
    ensures
        required == required_level(level),
{
    match level {
        Some(l) => l,
        None => DEFAULT_LEVEL,
    }
}

/// Whether `c` is a decimal digit.
pub open spec fn is_digit(c: char) -> bool {
    '0' <= c <= '9'
}

/// The number that the decimal digits `digits` write.
pub open spec fn digits_value(digits: Seq<char>) -> nat
    decreases digits.len(),
{
    if digits.len() == 0 {
        0
    } else {
        (digits_value(digits.drop_last()) * 10 + (digits.last() as nat - '0' as nat)) as nat
    }
}

/// `text` without one leading plus sign.
pub open spec fn unsigned_part(text: Seq<char>) -> Seq<char> {
    if text.len() > 0 && text[0] == '+' {
        text.drop_first()
    } else {
        text
    }
}

/// The threshold that `text` writes, if it writes one: an optional plus
/// sign, then one or more decimal digits and nothing else, with a value of
/// at most 255.
pub open spec fn parsed_level(text: Seq<char>) -> Option<u8> {
    let digits = unsigned_part(text);
    if digits.len() > 0 && (forall|i: int| 0 <= i < digits.len() ==> is_digit(#[trigger] digits[i]))
        && digits_value(digits) <= u8::MAX {
        Some(digits_value(digits) as u8)
    } else {
        None
    }
}

/// The threshold that an environment variable's value gives: the one it
/// writes, or `default` where the variable is not set or its value writes
/// none.
pub open spec fn level_from(value: Option<&str>, default: u8) -> u8 {
    match value {
        Some(text) => match parsed_level(text@) {
            Some(level) => level,
            None => default,
        },
        None => default,
    }
}

/// Digits that are read later only add to the number read so far.
proof fn digits_value_grows(digits: Seq<char>, read: int)
    requires
        0 <= read <= digits.len(),
        forall|i: int| 0 <= i < digits.len() ==> is_digit(#[trigger] digits[i]),
    ensures
        digits_value(digits.subrange(0, read)) <= digits_value(digits),
    decreases digits.len() - read,
{
    if read == digits.len() {
        assert(digits.subrange(0, read) =~= digits);
    } else {
        let longer = digits.subrange(0, read + 1);
        assert(longer.drop_last() =~= digits.subrange(0, read));
        assert(is_digit(digits[read]));
        assert(longer.last() == digits[read]);
        digits_value_grows(digits, read + 1);
    }
}

/// Text with a character beyond the seven-bit range writes no threshold.
proof fn wide_text_has_no_level(text: Seq<char>)
    requires
        !is_ascii_chars(text),
    ensures
        parsed_level(text) is None,
{
    let at = choose|i: int| 0 <= i < text.len() && !('\0' <= #[trigger] text[i] <= '\u{7f}');
    let digits = unsigned_part(text);
    if digits.len() == text.len() {
        assert(!is_digit(digits[at]));
    } else if at > 0 {
        assert(digits[at - 1] == text[at]);
        assert(!is_digit(digits[at - 1]));
    }
}

/// Reads a threshold from `text`, as [`parsed_level`] defines it.
pub fn parse_level(text: &str) -> (level: Option<u8>)
    ensures
        level == parsed_level(text@),
{
    if !text.is_ascii() {
        proof {
            wide_text_has_no_level(text@);
        }
        return None;
    }
    let n = text.unicode_len();
    let start: usize = if n > 0 && text.get_ascii(0) == 43u8 {
        1
    } else {
        0
    };
    let ghost digits = unsigned_part(text@);
    proof {
        assert(start == 1 <==> (text@.len() > 0 && text@[0] == '+'));
        assert(digits.len() == n - start);
        assert(forall|i: int| 0 <= i < digits.len() ==> digits[i] == text@[i + start]);
    }
    if start == n {
        return None;
    }
    let mut value: u16 = 0;
    let mut i: usize = start;
    while i < n
        invariant
            text.is_ascii(),
            n == text@.len(),
            start <= i <= n,
            digits == unsigned_part(text@),
            digits.len() == n - start,
            forall|j: int| 0 <= j < digits.len() ==> digits[j] == text@[j + start],
            forall|j: int| 0 <= j < i - start ==> is_digit(#[trigger] digits[j]),
            value == digits_value(digits.subrange(0, i - start)),
            value <= u8::MAX,
        decreases n - i,
    {
        let byte = text.get_ascii(i);
        if byte < 48u8 || byte > 57u8 {
            proof {
                assert(!is_digit(digits[i - start]));
            }
            return None;
        }
        let ghost read = digits.subrange(0, i - start + 1);
        proof {
            assert(read.drop_last() =~= digits.subrange(0, i - start));
            assert(read.last() == digits[i - start]);
            assert(is_digit(digits[i - start]));
        }
        value = value * 10 + (byte - 48u8) as u16;
        i += 1;
        if value > 255 {
            proof {
                if forall|j: int| 0 <= j < digits.len() ==> is_digit(#[trigger] digits[j]) {
                    digits_value_grows(digits, i - start);
                }
            }
            return None;
        }
    }
    proof {
        assert(digits.subrange(0, i - start) =~= digits);
    }
    Some(value as u8)
}

/// See [`level_from`].
pub fn level_from_value(value: Option<&str>, default: u8) -> (level: u8)
    ensures
        level == level_from(value, default),
{
    match value {
        Some(text) => match parse_level(text) {
            Some(level) => level,
            None => default,
        },
        None => default,
    }
}

impl Verbosity {
    /// Stores the threshold that an environment variable's value gives, or
    /// `default` where it gives none. It never fails.
    pub fn set_from_value(&mut self, value: Option<&str>, default: u8)
        ensures
            *final(self) == old(self).with_level(level_from(value, default)),
            final(self).level() == level_from(value, default),
    {
        let level = level_from_value(value, default);
        self.set(level);
    }
}

} // verus!
