//! The callback handlers' shared shape: enter the rundown-protected
//! region, filter the snapshot, push the encoded event, release on every
//! exit path.
//!
//! The kernel hands each handler its raw notification; the surrounding
//! code snapshots the fields the filters need (copying strings to owned
//! buffers) and serializes the event to opaque bytes.  The decisions -
//! whether the region could be entered, whether the filter keeps the
//! event, and what reaches the ring - are made and proved here.

use vstd::prelude::*;

use crate::driver::{enter, leave, push_event, spec_event_pushed, DriverState};
use crate::filters::{
    should_emit_image_load, should_emit_process_create, should_emit_registry_setvalue,
    spec_should_emit_image_load, spec_should_emit_process_create,
    spec_should_emit_registry_setvalue,
};

verus! {

/// What a handler did with a notification.
#[derive(Clone, Copy, PartialEq, Eq, Structural, Debug)]
pub enum HandlerOutcome {
    /// The notification is not one this handler processes.
    Ignored,
    /// The rundown barrier was completed or not published; nothing was
    /// touched.
    NotProtected,
    /// The filter decided the event is not worth emitting.
    Filtered,
    /// The event was handed to the ring.
    Emitted,
}

/// The registry notification classes the driver distinguishes: only the
/// pre-set-value class is processed, every other class is passed through.
#[derive(Clone, Copy, PartialEq, Eq, Structural, Debug)]
pub enum RegNotifyClass {
    /// A value is about to be written.
    PreSetValueKey,
    /// Any other registry notification.
    Other,
}

/// The rundown and active counters return to their pre-call values, and
/// nothing besides the ring changed.
pub open spec fn spec_handler_frame(pre: DriverState, post: DriverState) -> bool {
    &&& post.rundown == pre.rundown
    &&& post.active == pre.active
    &&& post.ring_published == pre.ring_published
    &&& post.rundown_published == pre.rundown_published
    &&& post.cb_mask == pre.cb_mask
}

/// Handle a process-creation notification.
///
/// `pid` and `image_path` are the snapshot fields the filter reads;
/// `encoded` is the serialized event.  The handler enters the protected
/// region (backing off when teardown has begun), applies the filter, and
/// pushes the encoded bytes; the guard is released on every path, so the
/// rundown state after the call equals the state before it.
pub fn on_process_create(
    st: &mut DriverState,
    pid: u32,
    image_path: &str,
    encoded: &[u8],
) -> (outcome: HandlerOutcome)
    requires
        old(st).ring.wf(),
        old(st).rundown.in_flight < u32::MAX,
        old(st).active < u32::MAX,
    ensures
        final(st).ring.wf(),
        spec_handler_frame(*old(st), *final(st)),
        (outcome == HandlerOutcome::NotProtected) == !old(st).spec_acquirable(),
        (outcome == HandlerOutcome::Filtered) == (old(st).spec_acquirable()
            && !spec_should_emit_process_create(pid, image_path@)),
        (outcome == HandlerOutcome::Emitted) == (old(st).spec_acquirable()
            && spec_should_emit_process_create(pid, image_path@)),
        outcome == HandlerOutcome::Emitted ==> spec_event_pushed(
            *old(st),
            *final(st),
            encoded@,
        ),
        outcome != HandlerOutcome::Emitted ==> final(st).ring == old(st).ring,
{
    let scope = enter(st);
    if !scope.acquired {
        return HandlerOutcome::NotProtected;
    }
    if !should_emit_process_create(pid, image_path) {
        leave(st, scope);
        return HandlerOutcome::Filtered;
    }
    push_event(st, encoded);
    leave(st, scope);
    HandlerOutcome::Emitted
}

/// Handle an image-load notification, with the same shape as the
/// process handler: guard, filter on the snapshot fields, push the
/// encoded event.
pub fn on_image_load(
    st: &mut DriverState,
    pid: u32,
    full_image_path: &str,
    image_size: u32,
    encoded: &[u8],
) -> (outcome: HandlerOutcome)
    requires
        old(st).ring.wf(),
        old(st).rundown.in_flight < u32::MAX,
        old(st).active < u32::MAX,
    ensures
        final(st).ring.wf(),
        spec_handler_frame(*old(st), *final(st)),
        (outcome == HandlerOutcome::NotProtected) == !old(st).spec_acquirable(),
        (outcome == HandlerOutcome::Filtered) == (old(st).spec_acquirable()
            && !spec_should_emit_image_load(pid, full_image_path@, image_size)),
        (outcome == HandlerOutcome::Emitted) == (old(st).spec_acquirable()
            && spec_should_emit_image_load(pid, full_image_path@, image_size)),
        outcome == HandlerOutcome::Emitted ==> spec_event_pushed(
            *old(st),
            *final(st),
            encoded@,
        ),
        outcome != HandlerOutcome::Emitted ==> final(st).ring == old(st).ring,
{
    let scope = enter(st);
    if !scope.acquired {
        return HandlerOutcome::NotProtected;
    }
    if !should_emit_image_load(pid, full_image_path, image_size) {
        leave(st, scope);
        return HandlerOutcome::Filtered;
    }
    push_event(st, encoded);
    leave(st, scope);
    HandlerOutcome::Emitted
}

/// Handle a registry notification.  Only the pre-set-value class is
/// processed; every other class is ignored before the guard is taken.
/// For the processed class the shape is the same as the other handlers:
/// guard, filter on the resolved key path, push the encoded event.
pub fn on_registry_setvalue(
    st: &mut DriverState,
    class: RegNotifyClass,
    key_path_nt: &str,
    value_name: Option<&str>,
    encoded: &[u8],
) -> (outcome: HandlerOutcome)
    requires
        old(st).ring.wf(),
        old(st).rundown.in_flight < u32::MAX,
        old(st).active < u32::MAX,
    ensures
        final(st).ring.wf(),
        spec_handler_frame(*old(st), *final(st)),
        (outcome == HandlerOutcome::Ignored) == (class != RegNotifyClass::PreSetValueKey),
        (outcome == HandlerOutcome::NotProtected) == (class == RegNotifyClass::PreSetValueKey
            && !old(st).spec_acquirable()),
        (outcome == HandlerOutcome::Filtered) == (class == RegNotifyClass::PreSetValueKey && old(
            st,
        ).spec_acquirable() && !spec_should_emit_registry_setvalue(key_path_nt@)),
        (outcome == HandlerOutcome::Emitted) == (class == RegNotifyClass::PreSetValueKey && old(
            st,
        ).spec_acquirable() && spec_should_emit_registry_setvalue(key_path_nt@)),
        outcome == HandlerOutcome::Emitted ==> spec_event_pushed(
            *old(st),
            *final(st),
            encoded@,
        ),
        outcome != HandlerOutcome::Emitted ==> final(st).ring == old(st).ring,
{
    if !matches!(class, RegNotifyClass::PreSetValueKey) {
        return HandlerOutcome::Ignored;
    }
    let scope = enter(st);
    if !scope.acquired {
        return HandlerOutcome::NotProtected;
    }
    if !should_emit_registry_setvalue(key_path_nt, value_name) {
        leave(st, scope);
        return HandlerOutcome::Filtered;
    }
    push_event(st, encoded);
    leave(st, scope);
    HandlerOutcome::Emitted
}

} // verus!
