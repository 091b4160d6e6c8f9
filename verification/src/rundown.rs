//! Rundown protection: the drain barrier that gates callbacks during
//! driver teardown.
//!
//! A rundown object counts in-flight protected regions and, once
//! completed, refuses every further acquire.  Teardown completes the
//! barrier, waits until the count returns to zero, and only then tears the
//! guarded state down.  In the deployed driver the object lives in the
//! device extension and is operated through the kernel's rundown
//! primitives; the state machine those primitives implement is modeled and
//! proved here.

use vstd::prelude::*;

verus! {

/// The drain barrier: an in-flight count and a completed flag.  Once
/// `completed` is set it is never cleared; there is no reopen transition.
pub struct Rundown {
    /// Number of protected regions currently entered and not yet exited.
    pub in_flight: u32,
    /// Whether the barrier has been completed, refusing new acquires.
    pub completed: bool,
}

/// One operation on a rundown object, for stating laws over whole
/// histories of concurrent callers.
pub enum RundownOp {
    /// A caller tries to enter a protected region.
    Acquire,
    /// A caller leaves a protected region it had entered.
    Release,
    /// Teardown blocks new acquires.
    Complete,
}

impl Rundown {
    /// A fresh, open barrier with nothing in flight.
    pub fn new() -> (r: Rundown)
        ensures
            r.in_flight == 0,
            !r.completed,
    {
        Rundown { in_flight: 0, completed: false }
    }

    /// The state after one operation.  A release with nothing in flight
    /// and an acquire at the counter's ceiling are no-ops; neither arises
    /// in a history where callers release only what they acquired.
    pub open spec fn spec_step(self, op: RundownOp) -> Rundown {
        match op {
            RundownOp::Acquire => {
                if self.completed || self.in_flight == u32::MAX {
                    self
                } else {
                    Rundown { in_flight: (self.in_flight + 1) as u32, ..self }
                }
            },
            RundownOp::Release => {
                if self.in_flight > 0 {
                    Rundown { in_flight: (self.in_flight - 1) as u32, ..self }
                } else {
                    self
                }
            },
            RundownOp::Complete => Rundown { completed: true, ..self },
        }
    }

    /// The state after a whole history of operations.
    pub open spec fn spec_run(self, ops: Seq<RundownOp>) -> Rundown
        decreases ops.len(),
    {
        if ops.len() == 0 {
            self
        } else {
            self.spec_step(ops[0]).spec_run(ops.drop_first())
        }
    }

    /// Try to enter a protected region.  Succeeds exactly when the barrier
    /// is still open, and then counts one more region in flight.
    pub fn acquire(&mut self) -> (got: bool)
        requires
            old(self).in_flight < u32::MAX,
        ensures
            got == !old(self).completed,
            final(self).completed == old(self).completed,
            got ==> final(self).in_flight == old(self).in_flight + 1,
            !got ==> final(self).in_flight == old(self).in_flight,
            *final(self) == old(self).spec_step(RundownOp::Acquire),
    {
        if self.completed {
            false
        } else {
            self.in_flight = self.in_flight + 1;
            true
        }
    }

    /// Leave a protected region entered earlier.
    pub fn release(&mut self)
        requires
            old(self).in_flight > 0,
        ensures
            final(self).in_flight == old(self).in_flight - 1,
            final(self).completed == old(self).completed,
            *final(self) == old(self).spec_step(RundownOp::Release),
    {
        self.in_flight = self.in_flight - 1;
    }

    /// Complete the barrier: every subsequent acquire fails.
    pub fn complete(&mut self)
        ensures
            final(self).completed,
            final(self).in_flight == old(self).in_flight,
            *final(self) == old(self).spec_step(RundownOp::Complete),
    {
        self.completed = true;
    }

    /// Whether the barrier is completed and nothing is left in flight.
    /// The kernel primitive blocks until this holds; the model reports it,
    /// and the drain law below shows the state is then final.
    pub fn is_drained(&self) -> (r: bool)
        ensures
            r == (self.completed && self.in_flight == 0),
    {
        self.completed && self.in_flight == 0
    }
}

/// Completion is permanent: no operation ever clears the flag, so after
/// `complete` returns, every acquire in every possible continuation of the
/// history fails and leaves the count unchanged.
pub proof fn lemma_complete_is_permanent(r: Rundown, ops: Seq<RundownOp>)
    requires
        r.completed,
    ensures
        r.spec_run(ops).completed,
        r.spec_run(ops).spec_step(RundownOp::Acquire) == r.spec_run(ops),
    decreases ops.len(),
{
    if ops.len() > 0 {
        lemma_complete_is_permanent(r.spec_step(ops[0]), ops.drop_first());
    }
}

/// Once drained - completed with nothing in flight - a rundown object
/// stays drained under every further operation: no acquire succeeds and
/// no caller can be inside a protected region again.  This is what makes
/// it safe to free the guarded state after the drain wait returns.
pub proof fn lemma_drained_is_final(r: Rundown, ops: Seq<RundownOp>)
    requires
        r.completed,
        r.in_flight == 0,
    ensures
        r.spec_run(ops).completed,
        r.spec_run(ops).in_flight == 0,
    decreases ops.len(),
{
    if ops.len() > 0 {
        lemma_drained_is_final(r.spec_step(ops[0]), ops.drop_first());
    }
}

/// After completion the in-flight count never rises: each step either
/// keeps it or lowers it, so the count drains monotonically toward zero.
pub proof fn lemma_completed_count_never_rises(r: Rundown, op: RundownOp)
    requires
        r.completed,
    ensures
        r.spec_step(op).in_flight <= r.in_flight,
{
}

} // verus!
