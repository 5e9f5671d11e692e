//! Conditional console logging for command-line tools.
//!
//! One verbosity threshold stands before every message. A message is
//! written only when the threshold is at or above the level that the
//! message asks for.
//! Messages carry an optional level tag, which may be coloured, and an
//! optional timestamp. A status line shows work in progress as a spinner
//! that a background ticker repaints until it is told to stop.
//!
//! This crate decides and renders; it never writes and never reads the
//! clock. Every operation hands back the exact text for the caller to put
//! on the terminal, so that the contracts below can say what that text is.

pub mod ansi;
pub mod config;
pub mod level;
pub mod paint;
pub mod record;
pub mod signal;
pub mod state;
pub mod status;
pub mod text;
pub mod util;
pub mod verbosity;

pub use config::Config;
pub use level::{Destination, Level, TagColor};
pub use record::{log, vebug, verbose, verror, vinfo, vsection, vwarn, LogRecord};
pub use signal::{stop_channel, SpinnerHandle, StopSignal};
pub use state::VerbosityState;
pub use status::{
    clear_status_line, finish_status_line, start_spinner, status_line, Ticker, FRAME_COUNT,
    TICK_MILLIS,
};
pub use util::{format_level, format_time, TIMESTAMP_PATTERN};
pub use verbosity::{
    level_from_value, parse_level, Verbosity, DEFAULT_LEVEL, ENV_VARIABLE, SILENT,
};
