//! The status line: one terminal line that a ticker repaints in place with a
//! spinner and a message until its owner stops it.
//!
//! A session is idle until it is started, runs while its ticker repaints,
//! is stopping from the moment the owner raises the stop flag, and is idle
//! again once the ticker has seen the flag. The ticker looks at the flag
//! once per round, so a stop takes effect within one tick.

use crate::ansi::{line_reset, line_reset_sequence};
use crate::config::Config;
use crate::signal::{stop_channel, SpinnerHandle, StopSignal};
use crate::verbosity::{level_or_default, required_level, Verbosity};
use vstd::prelude::*;

verus! {

/// How many glyphs the spinner cycles through.
pub const FRAME_COUNT: usize = 10;

/// How long the ticker sleeps between two repaints, in milliseconds.
pub const TICK_MILLIS: u64 = 100;

/// The spinner's glyphs, in the order in which they are shown.
pub open spec fn spinner_frames() -> Seq<char> {
    seq![
        '\u{280B}',
        '\u{2819}',
        '\u{2839}',
        '\u{2838}',
        '\u{283C}',
        '\u{2834}',
        '\u{2826}',
        '\u{2827}',
        '\u{2807}',
        '\u{280F}',
    ]
}

/// The glyph of the `tick`-th repaint: the glyphs come round again after
/// [`FRAME_COUNT`] repaints.
pub open spec fn spinner_glyph(tick: nat) -> char {
    spinner_frames()[(tick % (FRAME_COUNT as nat)) as int]
}

/// The position in the cycle that follows `position`.
pub open spec fn next_position(position: nat) -> nat {
    (position + 1) % (FRAME_COUNT as nat)
}

/// What one repaint writes: the line reset, the glyph, a space and the
/// message, with no line end.
pub open spec fn repaint_text(position: nat, message: Seq<char>) -> Seq<char> {
    line_reset() + seq![spinner_glyph(position), ' '] + message
}

/// What finishing the status line writes: the line reset, then the message
/// and a line end.
pub open spec fn finish_text(message: Seq<char>) -> Seq<char> {
    line_reset() + message + seq!['\n']
}

/// The glyphs come round again after [`FRAME_COUNT`] repaints, and stepping
/// round the cycle shows them in order.
pub proof fn glyphs_come_round(tick: nat)
    ensures
        spinner_glyph(tick + FRAME_COUNT as nat) == spinner_glyph(tick),
        spinner_glyph(next_position(tick)) == spinner_glyph(tick + 1),
        next_position(tick) < FRAME_COUNT,
{
}

/// Every repaint and every finish begins by resetting the line, so what was
/// on the line before never shows through; a finish ends the line and a
/// repaint ends with the message.
pub proof fn repaint_resets_the_line(position: nat, message: Seq<char>)
    ensures
        repaint_text(position, message).subrange(0, 8) == line_reset(),
        finish_text(message).subrange(0, 8) == line_reset(),
        finish_text(message).last() == '\n',
        repaint_text(position, message).len() == 10 + message.len(),
        repaint_text(position, message).subrange(10, 10 + message.len() as int) == message,
{
    let repaint = repaint_text(position, message);
    assert(repaint.subrange(0, 8) =~= line_reset());
    assert(finish_text(message).subrange(0, 8) =~= line_reset());
    assert(repaint.subrange(10, 10 + message.len() as int) =~= message);
}

/// The glyph at `position` of the cycle, as text.
pub fn spinner_frame(position: usize) -> (glyph: &'static str)
    requires
        position < FRAME_COUNT,
    ensures
        glyph@ == seq![spinner_glyph(position as nat)],
{
    proof {
        reveal_strlit("\u{280B}");
        reveal_strlit("\u{2819}");
        reveal_strlit("\u{2839}");
        reveal_strlit("\u{2838}");
        reveal_strlit("\u{283C}");
        reveal_strlit("\u{2834}");
        reveal_strlit("\u{2826}");
        reveal_strlit("\u{2827}");
        reveal_strlit("\u{2807}");
        reveal_strlit("\u{280F}");
    }
    let glyph = if position == 0 {
        "\u{280B}"
    } else if position == 1 {
        "\u{2819}"
    } else if position == 2 {
        "\u{2839}"
    } else if position == 3 {
        "\u{2838}"
    } else if position == 4 {
        "\u{283C}"
    } else if position == 5 {
        "\u{2834}"
    } else if position == 6 {
        "\u{2826}"
    } else if position == 7 {
        "\u{2827}"
    } else if position == 8 {
        "\u{2807}"
    } else {
        "\u{280F}"
    };
    assert(glyph@ =~= seq![spinner_glyph(position as nat)]);
    glyph
}

/// The background end of a session: it owns the place in the glyph cycle,
/// remembers whether it has seen the stop flag, and keeps looking at the
/// same flag for as long as it lives.
pub struct Ticker {
    signal: StopSignal,
    position: usize,
    running: bool,
}

impl Ticker {
    /// Whether the ticker has not yet seen the stop flag.
    pub closed spec fn is_running(&self) -> bool {
        self.running
    }

    /// The place in the glyph cycle of the next repaint.
    pub closed spec fn position(&self) -> nat {
        self.position as nat
    }

    /// Whether this ticker looks at the very flag that `handle` raises.
    pub closed spec fn stopped_by(&self, handle: &SpinnerHandle) -> bool {
        self.signal.watches(handle)
    }

    /// The place in the cycle is always one of the glyphs.
    #[verifier::type_invariant]
    spec fn in_cycle(&self) -> bool {
        self.position < FRAME_COUNT
    }

    /// The ticker's decision once it has looked at the flag: it goes on
    /// exactly when it was running and the flag was not raised. A ticker
    /// that has stopped stays stopped, whatever it is shown later.
    pub fn observe(&mut self, stop_raised: bool) -> (go_on: bool)
        ensures
            go_on == (old(self).is_running() && !stop_raised),
            final(self).is_running() == go_on,
            final(self).position() == old(self).position(),
            forall|handle: SpinnerHandle|
                final(self).stopped_by(&handle) == old(self).stopped_by(&handle),
    {
        proof {
            use_type_invariant(&*self);
        }
        if stop_raised {
            self.running = false;
        }
        self.running
    }

    /// Looks at its stop flag and decides as [`Ticker::observe`] does. The
    /// answer depends on what the owner has done, so only this much is
    /// promised: a ticker that goes on was running, and one that has stopped
    /// never goes on again.
    pub fn poll(&mut self) -> (go_on: bool)
        ensures
            go_on ==> old(self).is_running(),
            final(self).is_running() == go_on,
            final(self).position() == old(self).position(),
            forall|handle: SpinnerHandle|
                final(self).stopped_by(&handle) == old(self).stopped_by(&handle),
    {
        let raised = self.signal.is_raised();
        self.observe(raised)
    }

    /// The text of the next repaint for `message`, and a step round the
    /// glyph cycle. A ticker that has seen the stop flag repaints nothing
    /// and stays as it is.
    pub fn repaint(&mut self, message: &str) -> (text: Option<String>)
        ensures
            match text {
                Some(t) => old(self).is_running() && t@ == repaint_text(
                    old(self).position(),
                    message@,
                ) && final(self).position() == next_position(old(self).position()),
                None => !old(self).is_running() && final(self).position() == old(self).position(),
            },
            final(self).is_running() == old(self).is_running(),
            forall|handle: SpinnerHandle|
                final(self).stopped_by(&handle) == old(self).stopped_by(&handle),
    {
        proof {
            use_type_invariant(&*self);
        }
        if !self.running {
            return None;
        }
        let mut text = line_reset_sequence();
        text.append(spinner_frame(self.position));
        text.append(" ");
        text.append(message);
        proof {
            reveal_strlit(" ");
            assert(" "@ =~= seq![' ']);
            assert(text@ =~= repaint_text(old(self).position(), message@));
        }
        self.position = if self.position + 1 == FRAME_COUNT {
            0
        } else {
            self.position + 1
        };
        Some(text)
    }
}

/// Opens a session: a handle for the owner and a running ticker at the
/// first glyph, which looks at the flag that this handle raises. Nothing
/// has been written yet; the caller runs the ticker.
pub fn start_spinner() -> (session: (SpinnerHandle, Ticker))
    ensures
        session.1.is_running(),
        session.1.position() == 0,
        session.1.stopped_by(&session.0),
{
    let (handle, signal) = stop_channel();
    (handle, Ticker { signal, position: 0, running: true })
}

/// Whether a status line that asks for `level` is shown: the subsystem must
/// be switched on and the threshold must reach the level.
pub open spec fn status_shown(config: Config, verbosity: Verbosity, level: Option<u8>) -> bool {
    config.status && verbosity.emits(required_level(level))
}

/// Opens a session if the status line is switched on and a message at
/// `level` is let through; otherwise nothing is started and there is no
/// handle.
pub fn status_line(config: &Config, verbosity: &Verbosity, level: Option<u8>) -> (session: Option<
    (SpinnerHandle, Ticker),
>)
    ensures
        session is Some <==> status_shown(*config, *verbosity, level),
        session matches Some(s) ==> s.1.is_running() && s.1.position() == 0 && s.1.stopped_by(
            &s.0,
        ),
{
    if config.status && verbosity.should_emit(level_or_default(level)) {
        Some(start_spinner())
    } else {
        None
    }
}

/// What clears the status line: the cursor goes to column zero and the line
/// is emptied. It is the same text whether or not a spinner is active, and
/// writing it to an empty line shows nothing.
pub fn clear_status_line() -> (text: String)
    ensures
        text@ == line_reset(),
{
    line_reset_sequence()
}

/// What replaces the status line by `message`: the line reset, the message
/// and a line end. It does not stop a ticker.
pub fn finish_status_line(message: &str) -> (text: String)
    ensures
        text@ == finish_text(message@),
{
    let mut text = clear_status_line();
    text.append(message);
    text.append("\n");
    proof {
        reveal_strlit("\n");
        assert("\n"@ =~= seq!['\n']);
        assert(text@ =~= finish_text(message@));
    }
    text
}

} // verus!
