//! Transactional registration and teardown of the callback families.
//!
//! The driver registers the process, image-load and registry families in
//! a fixed order.  Registration is all-or-nothing: on the first failure
//! the families already registered are unregistered again in reverse
//! order, the published ring pointer is cleared, and the failing status
//! is returned.  The calls into the operating system that perform each
//! registration happen outside; their outcomes are handed in, and the
//! orchestrator's decisions - what to register, what to undo, in which
//! order - are returned as an action trace and proved exact.

use vstd::prelude::*;

use crate::driver::{clear_ring, set_ring, DriverState};

verus! {

/// Which callback families registered successfully, so teardown can
/// unregister precisely what was installed.
#[derive(Clone, Copy, PartialEq, Eq, Structural, Debug)]
pub struct CallbackMask {
    /// Process-creation notifications.
    pub proc: bool,
    /// Image-load notifications.
    pub img: bool,
    /// Registry-operation notifications.
    pub reg: bool,
}

impl CallbackMask {
    /// True when at least one family is registered.
    pub fn any(self) -> (r: bool)
        ensures
            r == (self.proc || self.img || self.reg),
    {
        self.proc || self.img || self.reg
    }
}

impl Default for CallbackMask {
    /// The empty mask: no family registered.
    fn default() -> (r: CallbackMask)
        ensures
            !r.proc && !r.img && !r.reg,
    {
        CallbackMask { proc: false, img: false, reg: false }
    }
}

/// One callback family.
#[derive(Clone, Copy, PartialEq, Eq, Structural, Debug)]
pub enum CallbackFamily {
    /// Process-creation notifications.
    Process,
    /// Image-load notifications.
    ImageLoad,
    /// Registry-operation notifications.
    Registry,
}

/// One step the orchestrator takes against the operating system or the
/// published ring pointer, recorded in order.
#[derive(Clone, Copy, PartialEq, Eq, Structural, Debug)]
pub enum CallbackAction {
    /// Publish the ring pointer for handlers.
    PublishRing,
    /// Register one family's notification routine.
    Register(CallbackFamily),
    /// Unregister one family's notification routine.
    Unregister(CallbackFamily),
    /// Clear the published ring pointer.
    ClearRing,
}

/// The action trace `register_all` performs for given outcomes of the
/// three registration attempts (`None` is success, `Some(status)` the
/// failing status): publish the ring, register in order, and on the
/// first failure undo in reverse and clear the ring pointer.
pub open spec fn spec_register_trace(
    st_proc: Option<i32>,
    st_img: Option<i32>,
    st_reg: Option<i32>,
) -> Seq<CallbackAction> {
    if st_proc is Some {
        seq![CallbackAction::PublishRing, CallbackAction::ClearRing]
    } else if st_img is Some {
        seq![
            CallbackAction::PublishRing,
            CallbackAction::Register(CallbackFamily::Process),
            CallbackAction::Unregister(CallbackFamily::Process),
            CallbackAction::ClearRing,
        ]
    } else if st_reg is Some {
        seq![
            CallbackAction::PublishRing,
            CallbackAction::Register(CallbackFamily::Process),
            CallbackAction::Register(CallbackFamily::ImageLoad),
            CallbackAction::Unregister(CallbackFamily::ImageLoad),
            CallbackAction::Unregister(CallbackFamily::Process),
            CallbackAction::ClearRing,
        ]
    } else {
        seq![
            CallbackAction::PublishRing,
            CallbackAction::Register(CallbackFamily::Process),
            CallbackAction::Register(CallbackFamily::ImageLoad),
            CallbackAction::Register(CallbackFamily::Registry),
        ]
    }
}

/// Register all callback families transactionally.
///
/// The ring pointer is published first so handlers that fire the moment
/// a family registers can emit.  The families are attempted in the order
/// process, image-load, registry; `st_proc`, `st_img` and `st_reg` are
/// the outcomes of those attempts (`None` for success, `Some(status)`
/// for the kernel's failing status).  On the first failure the already
/// registered families are unregistered in reverse order, the ring
/// pointer is cleared, and the failing status is returned; on success
/// the full mask is returned and the ring pointer stays published.  The
/// returned trace lists every action in order.
pub fn register_all(
    st: &mut DriverState,
    st_proc: Option<i32>,
    st_img: Option<i32>,
    st_reg: Option<i32>,
) -> (r: (Result<CallbackMask, i32>, Vec<CallbackAction>))
    ensures
        r.1@ == spec_register_trace(st_proc, st_img, st_reg),
        st_proc is Some ==> r.0 == Result::<CallbackMask, i32>::Err(st_proc.unwrap()),
        st_proc is None && st_img is Some ==> r.0 == Result::<CallbackMask, i32>::Err(
            st_img.unwrap(),
        ),
        st_proc is None && st_img is None && st_reg is Some ==> r.0 == Result::<
            CallbackMask,
            i32,
        >::Err(st_reg.unwrap()),
        st_proc is None && st_img is None && st_reg is None ==> r.0 == Result::<
            CallbackMask,
            i32,
        >::Ok(CallbackMask { proc: true, img: true, reg: true }),
        final(st).ring_published == (st_proc is None && st_img is None && st_reg is None),
        *final(st) == (DriverState { ring_published: final(st).ring_published, ..*old(st) }),
{
    let mut trace: Vec<CallbackAction> = Vec::new();
    set_ring(st);
    trace.push(CallbackAction::PublishRing);

    if let Some(status) = st_proc {
        clear_ring(st);
        trace.push(CallbackAction::ClearRing);
        proof {
            assert(trace@ =~= spec_register_trace(st_proc, st_img, st_reg));
        }
        return (Err(status), trace);
    }
    trace.push(CallbackAction::Register(CallbackFamily::Process));

    if let Some(status) = st_img {
        trace.push(CallbackAction::Unregister(CallbackFamily::Process));
        clear_ring(st);
        trace.push(CallbackAction::ClearRing);
        proof {
            assert(trace@ =~= spec_register_trace(st_proc, st_img, st_reg));
        }
        return (Err(status), trace);
    }
    trace.push(CallbackAction::Register(CallbackFamily::ImageLoad));

    if let Some(status) = st_reg {
        trace.push(CallbackAction::Unregister(CallbackFamily::ImageLoad));
        trace.push(CallbackAction::Unregister(CallbackFamily::Process));
        clear_ring(st);
        trace.push(CallbackAction::ClearRing);
        proof {
            assert(trace@ =~= spec_register_trace(st_proc, st_img, st_reg));
        }
        return (Err(status), trace);
    }
    trace.push(CallbackAction::Register(CallbackFamily::Registry));

    proof {
        assert(trace@ =~= spec_register_trace(st_proc, st_img, st_reg));
    }
    (Ok(CallbackMask { proc: true, img: true, reg: true }), trace)
}

/// The actions that unregister exactly the families of `mask`, in
/// reverse registration order, and clear the ring pointer.
pub open spec fn spec_unregister_trace(mask: CallbackMask) -> Seq<CallbackAction> {
    (if mask.reg {
        seq![CallbackAction::Unregister(CallbackFamily::Registry)]
    } else {
        Seq::<CallbackAction>::empty()
    }).add(
        if mask.img {
            seq![CallbackAction::Unregister(CallbackFamily::ImageLoad)]
        } else {
            Seq::<CallbackAction>::empty()
        },
    ).add(
        if mask.proc {
            seq![CallbackAction::Unregister(CallbackFamily::Process)]
        } else {
            Seq::<CallbackAction>::empty()
        },
    ).push(CallbackAction::ClearRing)
}

/// Unregister the families recorded in `mask`, in reverse registration
/// order (registry, image-load, process), and clear the published ring
/// pointer.
pub fn unregister_mask(st: &mut DriverState, mask: CallbackMask) -> (trace: Vec<CallbackAction>)
    ensures
        trace@ == spec_unregister_trace(mask),
        *final(st) == (DriverState { ring_published: false, ..*old(st) }),
{
    let mut trace: Vec<CallbackAction> = Vec::new();
    if mask.reg {
        trace.push(CallbackAction::Unregister(CallbackFamily::Registry));
    }
    if mask.img {
        trace.push(CallbackAction::Unregister(CallbackFamily::ImageLoad));
    }
    if mask.proc {
        trace.push(CallbackAction::Unregister(CallbackFamily::Process));
    }
    clear_ring(st);
    trace.push(CallbackAction::ClearRing);
    proof {
        assert(trace@ =~= spec_unregister_trace(mask));
    }
    trace
}

/// Best-effort teardown: try to unregister every family regardless of
/// what was recorded, and clear the ring pointer.  Used when no mask is
/// available during emergency teardown.
pub fn unregister_all(st: &mut DriverState) -> (trace: Vec<CallbackAction>)
    ensures
        trace@ == spec_unregister_trace(CallbackMask { proc: true, img: true, reg: true }),
        *final(st) == (DriverState { ring_published: false, ..*old(st) }),
{
    unregister_mask(st, CallbackMask { proc: true, img: true, reg: true })
}

} // verus!
