//! The stop flag that a spinner's owner and its ticker share.
//!
//! The flag is an atomic boolean behind a shared pointer. It starts lowered,
//! only [`SpinnerHandle::stop`] raises it, and nothing lowers it again. What
//! a load returns depends on what another thread has done, so the contracts
//! here promise nothing about it: the ticker's decisions are verified for
//! either answer.

use std::sync::atomic::{AtomicBool, Ordering};
use std::sync::Arc;
use vstd::prelude::*;

verus! {

/// The owner's end of a spinner session. Its only operation is
/// [`SpinnerHandle::stop`], which consumes it, so that a session cannot be
/// stopped twice.
pub struct SpinnerHandle {
    stop: Arc<AtomicBool>,
}

/// The ticker's end of a spinner session: it can only look at the flag.
pub struct StopSignal {
    stop: Arc<AtomicBool>,
}

impl SpinnerHandle {
    /// Raises the stop flag and returns at once. The ticker sees the flag
    /// when it next looks, at most one tick later.
    pub fn stop(self) {
        self.stop.store(true, Ordering::Relaxed);
    }
}

impl StopSignal {
    /// Whether this end looks at the very flag that `handle` raises.
    pub closed spec fn watches(&self, handle: &SpinnerHandle) -> bool {
        self.stop == handle.stop
    }

    /// Whether the flag was seen raised.
    pub fn is_raised(&self) -> bool {
        self.stop.load(Ordering::Relaxed)
    }
}

/// Trusted: `Arc::clone` of the standard library. The clone is one more
/// pointer to the same allocation, so what it points to is the flag that
/// `flag` points to, not a copy of it.
#[verifier::external_body]
fn share(flag: &Arc<AtomicBool>) -> (shared: Arc<AtomicBool>)
    ensures
        shared == *flag,
{
    Arc::clone(flag)
}

/// A lowered flag with its two ends: what the handle raises is what the
/// signal looks at.
pub fn stop_channel() -> (channel: (SpinnerHandle, StopSignal))
    ensures
        channel.1.watches(&channel.0),
{
    let stop = Arc::new(AtomicBool::new(false));
    let seen = share(&stop);
    (SpinnerHandle { stop }, StopSignal { stop: seen })
}

} // verus!
