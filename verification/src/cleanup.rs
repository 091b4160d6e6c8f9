//! Single-shot cleanup orchestration for the agent's console process.
//!
//! The deployed agent installs a console control handler that must run
//! the teardown routine - the pre-unload request to the driver - exactly
//! once, however many control events arrive and whether the trigger
//! comes from the handler, an explicit call, or the value being dropped.
//! Installing the handler and running the routine happen outside; the
//! once-only decision is made and proved here.

use vstd::prelude::*;

verus! {

/// Tracks whether the cleanup routine has been started.
pub struct ConsoleCleanup {
    /// True once the cleanup routine has been triggered.
    pub fired: bool,
}

impl ConsoleCleanup {
    /// A fresh tracker: nothing has fired yet.  The surrounding code
    /// installs the console handler when it creates this value.
    pub fn new() -> (r: ConsoleCleanup)
        ensures
            !r.fired,
    {
        ConsoleCleanup { fired: false }
    }

    /// Fire the cleanup once: returns true exactly on the first call,
    /// when the caller must run the cleanup routine; later calls return
    /// false and change nothing.
    pub fn fire_once(&mut self) -> (ran: bool)
        ensures
            ran == !old(self).fired,
            final(self).fired,
    {
        if self.fired {
            false
        } else {
            self.fired = true;
            true
        }
    }

    /// Manually trigger the cleanup (idempotent).
    pub fn trigger(&mut self)
        ensures
            final(self).fired,
    {
        let _ran = self.fire_once();
    }

    /// Whether the cleanup has been triggered already.
    pub fn was_triggered(&self) -> (r: bool)
        ensures
            r == self.fired,
    {
        self.fired
    }
}

} // verus!
