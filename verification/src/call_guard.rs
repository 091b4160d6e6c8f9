//! The re-entrancy guard used inside detours.
//!
//! A detour may recursively reach itself when an API it calls touches
//! the patched function; recursion must fall through to the gateway
//! instead of the detour.  The deployed guard keeps one thread-local
//! slot, allocated once per process with raw primitives that are valid
//! under the loader lock, and stores a non-null sentinel while a detour
//! runs.  The slot's state and the enter/leave discipline are modeled
//! and proved here; the thread-local storage calls live outside.

use vstd::prelude::*;

verus! {

/// The per-thread slot: whether the sentinel is currently stored.
pub struct TlsSlot {
    /// True while this thread is inside a detour.
    pub occupied: bool,
}

impl TlsSlot {
    /// A freshly allocated slot: empty, as thread-local storage starts
    /// zeroed.
    pub fn new() -> (r: TlsSlot)
        ensures
            !r.occupied,
    {
        TlsSlot { occupied: false }
    }
}

/// Held while the current thread is inside a detour; leaving clears the
/// slot so the thread can enter again later.
pub struct CallGuard {
    /// Nothing is stored; the guard's existence is the claim.
    _private: (),
}

impl CallGuard {
    /// Try to enter the protected section.  On first entry the sentinel
    /// is stored and a guard is returned; when the slot already holds
    /// the sentinel the thread is re-entering and gets nothing, so the
    /// caller falls through to the gateway.
    pub fn enter(slot: &mut TlsSlot) -> (r: Option<CallGuard>)
        ensures
            r is Some == !old(slot).occupied,
            final(slot).occupied,
    {
        if slot.occupied {
            None
        } else {
            slot.occupied = true;
            Some(CallGuard { _private: () })
        }
    }

    /// Leave the protected section, clearing the slot.  The deployed
    /// guard does this in its destructor on every exit path.
    pub fn leave(self, slot: &mut TlsSlot)
        ensures
            !final(slot).occupied,
    {
        slot.occupied = false;
    }
}

} // verus!
