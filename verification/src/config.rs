//! The settings that shape what is written.

use vstd::prelude::*;

verus! {

/// What a build of the host program has switched on.
#[derive(Clone, Copy, Debug, PartialEq, Eq)]
pub struct Config {
    /// Level tags are coloured.
    pub color: bool,
    /// Lines carry a `[YYYY-MM-DD HH:MM:SS] ` prefix.
    pub timestamp: bool,
    /// The status line is available at all.
    pub status: bool,
    /// Debug messages are written; without it they never are.
    pub debug_build: bool,
}

impl Config {
    /// Everything switched off: plain tags, no timestamps, no status line,
    /// no debug messages.
    pub fn new() -> (config: Config)
        ensures
            config == (Config { color: false, timestamp: false, status: false, debug_build: false }),
    {
        Config { color: false, timestamp: false, status: false, debug_build: false }
    }
}

impl Default for Config {
    fn default() -> (config: Config)
        ensures
            config == (Config { color: false, timestamp: false, status: false, debug_build: false }),
    {
        Config::new()
    }
}

} // verus!
