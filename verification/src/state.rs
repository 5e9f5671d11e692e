//! The threshold as a process shares it: one atomic cell that any thread may
//! read or write without a lock.
//!
//! A read returns whatever was stored last by any thread, so the contracts
//! here promise nothing about the values. [`Verbosity`] is the threshold as
//! one thread sees it, and carries the laws.

use crate::verbosity::{level_from_value, Verbosity, DEFAULT_LEVEL, SILENT};
use std::sync::atomic::{AtomicU8, Ordering};
use vstd::prelude::*;

verus! {

/// The shared threshold. It starts silent and is changed only by its
/// setters. Loads and stores are relaxed: a message that is being written
/// while the threshold changes may see either value.
pub struct VerbosityState {
    level: AtomicU8,
}

impl VerbosityState {
    /// A silent threshold.
    pub fn new() -> VerbosityState {
        VerbosityState { level: AtomicU8::new(SILENT) }
    }

    /// Stores `level`, replacing whatever was there.
    pub fn set(&self, level: u8) {
        self.level.store(level, Ordering::Relaxed);
    }

    /// Stores [`DEFAULT_LEVEL`].
    pub fn enable(&self) {
        self.set(DEFAULT_LEVEL);
    }

    /// The threshold as it stands at this moment.
    pub fn get(&self) -> u8 {
        self.level.load(Ordering::Relaxed)
    }

    /// The threshold as it stands at this moment, to decide one message by.
    pub fn snapshot(&self) -> Verbosity {
        Verbosity::at(self.get())
    }

    /// Stores the threshold that an environment variable's value gives, or
    /// `default` where it gives none. It never fails.
    pub fn set_from_value(&self, value: Option<&str>, default: u8) {
        self.set(level_from_value(value, default));
    }
}

} // verus!
