//! The driver's per-device state and the guard protocol around it.
//!
//! The deployed driver keeps the ring and the rundown object in its device
//! extension and publishes raw pointers to them with release/acquire
//! ordering, so callbacks on arbitrary threads can reach them without
//! borrowing.  Here the same state lives in one structure and publication
//! is a pair of flags: a cleared flag is a null pointer, and an operation
//! that finds it cleared backs off exactly as the handlers do.

use vstd::prelude::*;

use crate::callbacks::CallbackMask;
use crate::ring::MemoryRing;
use crate::rundown::Rundown;

verus! {

/// Everything the driver owns per device: the shared ring, the rundown
/// barrier that gates teardown, the published-pointer flags, the count of
/// handlers inside protected regions, and the mask of registered callback
/// families.
pub struct DriverState {
    /// The shared-memory ring the producer side writes into.
    pub ring: MemoryRing,
    /// Whether the ring pointer is published to callbacks.
    pub ring_published: bool,
    /// The rundown barrier owned by the device.
    pub rundown: Rundown,
    /// Whether the rundown pointer is published to callbacks.
    pub rundown_published: bool,
    /// Best-effort count of callbacks currently inside protected regions.
    pub active: u32,
    /// Which callback families registered successfully.
    pub cb_mask: CallbackMask,
}

/// Guard held while a callback is inside a protected region.  `acquired`
/// is false when the rundown was already completed or not yet published;
/// the callback must then leave driver state alone.
pub struct Scope {
    /// Whether rundown protection is actually held.
    pub acquired: bool,
}

impl DriverState {
    /// A callback can enter a protected region: the rundown pointer is
    /// published and the barrier is still open.
    pub open spec fn spec_acquirable(&self) -> bool {
        self.rundown_published && !self.rundown.completed
    }

    /// A fresh driver state around a newly created ring: nothing
    /// published, nothing registered, barrier open.
    pub fn new(ring: MemoryRing) -> (r: DriverState)
        ensures
            r.ring == ring,
            !r.ring_published,
            !r.rundown_published,
            r.rundown.in_flight == 0,
            !r.rundown.completed,
            r.active == 0,
            !r.cb_mask.proc && !r.cb_mask.img && !r.cb_mask.reg,
    {
        DriverState {
            ring,
            ring_published: false,
            rundown: Rundown::new(),
            rundown_published: false,
            active: 0,
            cb_mask: CallbackMask { proc: false, img: false, reg: false },
        }
    }
}

/// Publish the rundown pointer so callbacks can acquire protection.
pub fn set_rundown_ptr(st: &mut DriverState)
    ensures
        *final(st) == (DriverState { rundown_published: true, ..*old(st) }),
{
    st.rundown_published = true;
}

/// Clear the published rundown pointer during teardown, after callbacks
/// are unregistered and drained.
pub fn clear_rundown_ptr(st: &mut DriverState)
    ensures
        *final(st) == (DriverState { rundown_published: false, ..*old(st) }),
{
    st.rundown_published = false;
}

/// Initialize a fresh rundown object in the device state.
pub fn init_rundown(st: &mut DriverState)
    ensures
        *final(st) == (DriverState {
            rundown: (Rundown { in_flight: 0, completed: false }),
            ..*old(st)
        }),
{
    st.rundown = Rundown::new();
}

/// Begin teardown: complete the published barrier so no new protected
/// region can be entered.  Without a published pointer this is a no-op.
pub fn begin_unload(st: &mut DriverState)
    ensures
        old(st).rundown_published ==> *final(st) == (DriverState {
            rundown: (Rundown { completed: true, ..old(st).rundown }),
            ..*old(st)
        }),
        !old(st).rundown_published ==> *final(st) == *old(st),
{
    if st.rundown_published {
        st.rundown.complete();
    }
}

/// Report whether every in-flight protected region has been released.
/// The kernel primitive blocks until this holds; the caller polls the
/// model.  Without a published pointer there is nothing to wait for.
pub fn wait_for_zero(st: &DriverState) -> (drained: bool)
    ensures
        drained == (!st.rundown_published || st.rundown.in_flight == 0),
{
    !st.rundown_published || st.rundown.in_flight == 0
}

/// Enter a protected region for the current callback and return a guard.
/// Acquisition fails when the pointer is not published or the barrier has
/// been completed; the callback must then return without touching driver
/// state.
pub fn enter(st: &mut DriverState) -> (scope: Scope)
    requires
        old(st).rundown.in_flight < u32::MAX,
        old(st).active < u32::MAX,
    ensures
        scope.acquired == old(st).spec_acquirable(),
        scope.acquired ==> *final(st) == (DriverState {
            rundown: (Rundown { in_flight: (old(st).rundown.in_flight + 1) as u32, ..old(st).rundown }),
            active: (old(st).active + 1) as u32,
            ..*old(st)
        }),
        !scope.acquired ==> *final(st) == *old(st),
{
    if !st.rundown_published {
        return Scope { acquired: false };
    }
    let got = st.rundown.acquire();
    if got {
        st.active = st.active + 1;
    }
    Scope { acquired: got }
}

/// Leave a protected region, releasing the guard taken by `enter`.  A
/// guard that never acquired releases nothing; so does one whose pointer
/// was cleared in the meantime.
pub fn leave(st: &mut DriverState, scope: Scope)
    requires
        scope.acquired && old(st).rundown_published ==> old(st).rundown.in_flight > 0 && old(
            st,
        ).active > 0,
    ensures
        scope.acquired && old(st).rundown_published ==> *final(st) == (DriverState {
            rundown: (Rundown { in_flight: (old(st).rundown.in_flight - 1) as u32, ..old(st).rundown }),
            active: (old(st).active - 1) as u32,
            ..*old(st)
        }),
        !(scope.acquired && old(st).rundown_published) ==> *final(st) == *old(st),
{
    if scope.acquired && st.rundown_published {
        st.active = st.active - 1;
        st.rundown.release();
    }
}

/// Current number of callbacks inside protected regions (best effort,
/// for diagnostics only).
pub fn active_count(st: &DriverState) -> (r: u32)
    ensures
        r == st.active,
{
    st.active
}

/// Publish the ring pointer so callbacks can push events.
pub fn set_ring(st: &mut DriverState)
    ensures
        *final(st) == (DriverState { ring_published: true, ..*old(st) }),
{
    st.ring_published = true;
}

/// Clear the published ring pointer to stop new pushes once unload
/// begins.
pub fn clear_ring(st: &mut DriverState)
    ensures
        *final(st) == (DriverState { ring_published: false, ..*old(st) }),
{
    st.ring_published = false;
}

/// How `push_event` relates driver state after the call to before it:
/// with a published ring the frame is pushed (or counted as dropped by
/// the ring itself); without one the call is a silent no-op.
pub open spec fn spec_event_pushed(pre: DriverState, post: DriverState, p: Seq<u8>) -> bool {
    &&& pre.ring_published ==> MemoryRing::spec_pushed(pre.ring, post.ring, p)
    &&& !pre.ring_published ==> post.ring == pre.ring
    &&& post == DriverState { ring: post.ring, ..pre }
}

/// Push one already-encoded event into the published ring.  When the
/// pointer is not published - before initialization or during teardown -
/// the event is silently discarded.
pub fn push_event(st: &mut DriverState, encoded: &[u8])
    requires
        old(st).ring.wf(),
    ensures
        final(st).ring.wf(),
        spec_event_pushed(*old(st), *final(st), encoded@),
{
    if !st.ring_published {
        return ;
    }
    st.ring.push_bytes(encoded);
}

} // verus!
