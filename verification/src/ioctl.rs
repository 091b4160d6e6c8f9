//! The device-control interface: control codes and the dispatch
//! decisions behind each request.
//!
//! Requests use buffered semantics: the I/O manager copies input and
//! output through a staging buffer and reports the lengths seen here.
//! Opening the section handle in the caller's context, copying buffers
//! and completing request packets happen outside; the status returned
//! for every input, and what each request does to the device state, are
//! decided and proved here.

use vstd::prelude::*;

use crate::callbacks::{CallbackAction, CallbackFamily, CallbackMask};
use crate::driver::DriverState;
use crate::ring::MemoryRing;
use crate::rundown::Rundown;

verus! {

/// Device type used by the control codes.
pub const FILE_DEVICE_UNKNOWN: u32 = 0x22;

/// Buffered transfer method.
pub const METHOD_BUFFERED: u32 = 0;

/// No particular access required.
pub const FILE_ANY_ACCESS: u32 = 0;

/// Success status.
pub const STATUS_SUCCESS: i32 = 0;

/// The request carries an unsupported code or malformed parameters.
pub const STATUS_INVALID_PARAMETER: i32 = 0xC000000Du32 as i32;

/// The output buffer cannot hold the reply.
pub const STATUS_BUFFER_TOO_SMALL: i32 = 0xC0000023u32 as i32;

/// The device is quiescing and refuses new work.
pub const STATUS_DEVICE_NOT_READY: i32 = 0xC00000A3u32 as i32;

/// The request arrived at the wrong execution level.
pub const STATUS_INVALID_DEVICE_STATE: i32 = 0xC0000184u32 as i32;

/// A control code: `(device_type << 16) | (access << 14) | (function << 2)
/// | method`.
pub open spec fn spec_ctl_code(device_type: u32, function: u32, method: u32, access: u32) -> int {
    device_type * 0x10000 + access * 0x4000 + function * 4 + method
}

/// Compose a device control code from its four fields.
pub fn ctl_code(device_type: u32, function: u32, method: u32, access: u32) -> (r: u32)
    requires
        device_type < 0x10000,
        access < 4,
        function < 0x1000,
        method < 4,
    ensures
        r == spec_ctl_code(device_type, function, method, access),
{
    proof {
        assert((device_type << 16) == device_type * 0x10000 && (access << 14) == access * 0x4000
            && (function << 2) == function * 4) by (bit_vector)
            requires
                device_type < 0x10000 && access < 4 && function < 0x1000,
        ;
        assert(((device_type << 16) | (access << 14) | (function << 2) | method) == (device_type
            << 16) + (access << 14) + (function << 2) + method) by (bit_vector)
            requires
                device_type < 0x10000 && access < 4 && function < 0x1000 && method < 4,
        ;
    }
    (device_type << 16) | (access << 14) | (function << 2) | method
}

/// Ask the driver to open the shared section in the caller's context and
/// return the handle.
pub const IOCTL_GLADIX_GET_SECTION_HANDLE: u32 = 0x222004;

/// Send one serialized hook event to be pushed into the ring.
pub const IOCTL_GLADIX_SEND_HOOK_EVENT: u32 = 0x222008;

/// Begin the pre-unload sequence: quiesce and unregister callbacks.
pub const IOCTL_GLADIX_UNREGISTER_CALLBACKS: u32 = 0x22200C;

/// The three control codes are the buffered, any-access codes of device
/// type `0x22` with functions `0x801`, `0x802` and `0x803`.
pub proof fn lemma_ioctl_codes()
    ensures
        IOCTL_GLADIX_GET_SECTION_HANDLE == spec_ctl_code(
            FILE_DEVICE_UNKNOWN,
            0x801,
            METHOD_BUFFERED,
            FILE_ANY_ACCESS,
        ),
        IOCTL_GLADIX_SEND_HOOK_EVENT == spec_ctl_code(
            FILE_DEVICE_UNKNOWN,
            0x802,
            METHOD_BUFFERED,
            FILE_ANY_ACCESS,
        ),
        IOCTL_GLADIX_UNREGISTER_CALLBACKS == spec_ctl_code(
            FILE_DEVICE_UNKNOWN,
            0x803,
            METHOD_BUFFERED,
            FILE_ANY_ACCESS,
        ),
{
}

/// Size in bytes of a pointer-sized handle on the modeled platform.
pub const HANDLE_SIZE: usize = 8;

/// Decide the reply to a section-handle request.  `open_status` and
/// `handle_is_null` describe what opening the named section in the
/// caller's context produced.  The handle is written to the output
/// buffer only when it holds a pointer-sized value and the open
/// succeeded with a usable handle; the information field is then the
/// handle's size, otherwise zero.
pub fn handle_get_section_handle(out_len: usize, open_status: i32, handle_is_null: bool) -> (r: (
    i32,
    u64,
))
    ensures
        out_len < HANDLE_SIZE ==> r == (STATUS_BUFFER_TOO_SMALL, 0u64),
        out_len >= HANDLE_SIZE && (open_status != STATUS_SUCCESS || handle_is_null) ==> r == (
            open_status,
            0u64,
        ),
        out_len >= HANDLE_SIZE && open_status == STATUS_SUCCESS && !handle_is_null ==> r == (
            STATUS_SUCCESS,
            HANDLE_SIZE as u64,
        ),
{
    if out_len < HANDLE_SIZE {
        return (STATUS_BUFFER_TOO_SMALL, 0);
    }
    if open_status != STATUS_SUCCESS || handle_is_null {
        return (open_status, 0);
    }
    (STATUS_SUCCESS, HANDLE_SIZE as u64)
}

/// Ingest one hook event sent from a user process.
///
/// An empty input is rejected as invalid.  The request acquires the
/// device's rundown barrier; when the device is quiescing it is refused
/// with "device not ready" and nothing changes.  Otherwise the bytes are
/// pushed into the ring as one frame (the ring itself counts a frame
/// that does not fit as dropped), the barrier is released, and the
/// information field reports the bytes accepted.
pub fn handle_send_hook_event(st: &mut DriverState, input: &[u8]) -> (r: (i32, u64))
    requires
        old(st).ring.wf(),
        old(st).rundown.in_flight < u32::MAX,
    ensures
        final(st).ring.wf(),
        input@.len() == 0 ==> r == (STATUS_INVALID_PARAMETER, 0u64) && *final(st) == *old(st),
        input@.len() > 0 && old(st).rundown.completed ==> r == (STATUS_DEVICE_NOT_READY, 0u64)
            && *final(st) == *old(st),
        input@.len() > 0 && !old(st).rundown.completed ==> {
            &&& r == (STATUS_SUCCESS, input@.len() as u64)
            &&& MemoryRing::spec_pushed(old(st).ring, final(st).ring, input@)
            &&& *final(st) == (DriverState { ring: final(st).ring, ..*old(st) })
        },
{
    if input.len() == 0 {
        return (STATUS_INVALID_PARAMETER, 0);
    }
    let acquired = st.rundown.acquire();
    if !acquired {
        return (STATUS_DEVICE_NOT_READY, 0);
    }
    st.ring.push_bytes(input);
    st.rundown.release();
    (STATUS_SUCCESS, input.len() as u64)
}

/// The unregister actions of a pre-unload request: the families of
/// `mask` in reverse registration order.  The ring pointer is left
/// alone - the device and the ring survive until the driver unloads.
pub open spec fn spec_prepare_unload_trace(mask: CallbackMask) -> Seq<CallbackAction> {
    (if mask.reg {
        seq![CallbackAction::Unregister(CallbackFamily::Registry)]
    } else {
        Seq::<CallbackAction>::empty()
    }).add(
        if mask.img {
            seq![CallbackAction::Unregister(CallbackFamily::ImageLoad)]
        } else {
            Seq::<CallbackAction>::empty()
        },
    ).add(
        if mask.proc {
            seq![CallbackAction::Unregister(CallbackFamily::Process)]
        } else {
            Seq::<CallbackAction>::empty()
        },
    )
}

/// Begin race-safe teardown: refused away from passive execution level;
/// otherwise the rundown barrier is completed, so new callback entries
/// and ingest requests are blocked, and the families recorded in the
/// stored mask are unregistered in reverse order.  The device and the
/// ring are not destroyed.
pub fn handle_prepare_unload(st: &mut DriverState, passive: bool) -> (r: (i32, Vec<
    CallbackAction,
>))
    ensures
        !passive ==> r.0 == STATUS_INVALID_DEVICE_STATE && r.1@.len() == 0 && *final(st) == *old(
            st,
        ),
        passive ==> {
            &&& r.0 == STATUS_SUCCESS
            &&& r.1@ == spec_prepare_unload_trace(old(st).cb_mask)
            &&& *final(st) == (DriverState {
                rundown: (Rundown { completed: true, ..old(st).rundown }),
                ..*old(st)
            })
        },
{
    if !passive {
        return (STATUS_INVALID_DEVICE_STATE, Vec::new());
    }
    st.rundown.complete();
    let mut trace: Vec<CallbackAction> = Vec::new();
    if st.cb_mask.reg {
        trace.push(CallbackAction::Unregister(CallbackFamily::Registry));
    }
    if st.cb_mask.img {
        trace.push(CallbackAction::Unregister(CallbackFamily::ImageLoad));
    }
    if st.cb_mask.proc {
        trace.push(CallbackAction::Unregister(CallbackFamily::Process));
    }
    proof {
        assert(trace@ =~= spec_prepare_unload_trace(old(st).cb_mask));
    }
    (STATUS_SUCCESS, trace)
}

/// Whether the agent-side reply to a section-handle request is usable:
/// the call succeeded, the handle is non-null, and exactly one
/// pointer-sized value came back.  The consumer maps the section only
/// when this holds.
pub fn section_handle_reply_ok(ok: bool, handle_is_null: bool, bytes: usize) -> (r: bool)
    ensures
        r == (ok && !handle_is_null && bytes == HANDLE_SIZE),
{
    ok && !handle_is_null && bytes == HANDLE_SIZE
}

/// A create request on the device: a no-op that succeeds.
pub fn dispatch_create() -> (r: i32)
    ensures
        r == STATUS_SUCCESS,
{
    STATUS_SUCCESS
}

/// A close request on the device: a no-op that succeeds.
pub fn dispatch_close() -> (r: i32)
    ensures
        r == STATUS_SUCCESS,
{
    STATUS_SUCCESS
}

/// Dispatch one device-control request by its code.
///
/// Unknown codes are refused with an invalid-parameter status and leave
/// the device untouched.  The three supported codes behave as their
/// handlers promise; the returned trace is empty except for the
/// pre-unload request.
pub fn dispatch_device_control(
    st: &mut DriverState,
    code: u32,
    input: &[u8],
    out_len: usize,
    passive: bool,
    open_status: i32,
    handle_is_null: bool,
) -> (r: (i32, u64, Vec<CallbackAction>))
    requires
        old(st).ring.wf(),
        old(st).rundown.in_flight < u32::MAX,
    ensures
        final(st).ring.wf(),
        code != IOCTL_GLADIX_GET_SECTION_HANDLE && code != IOCTL_GLADIX_SEND_HOOK_EVENT && code
            != IOCTL_GLADIX_UNREGISTER_CALLBACKS ==> r.0 == STATUS_INVALID_PARAMETER && r.1 == 0
            && r.2@.len() == 0 && *final(st) == *old(st),
        code == IOCTL_GLADIX_GET_SECTION_HANDLE ==> *final(st) == *old(st) && r.2@.len() == 0 && {
            &&& out_len < HANDLE_SIZE ==> r.0 == STATUS_BUFFER_TOO_SMALL && r.1 == 0
            &&& out_len >= HANDLE_SIZE && (open_status != STATUS_SUCCESS || handle_is_null) ==> r.0
                == open_status && r.1 == 0
            &&& out_len >= HANDLE_SIZE && open_status == STATUS_SUCCESS && !handle_is_null ==> r.0
                == STATUS_SUCCESS && r.1 == HANDLE_SIZE as u64
        },
        code == IOCTL_GLADIX_SEND_HOOK_EVENT && input@.len() > 0 && !old(st).rundown.completed
            ==> r.0 == STATUS_SUCCESS && r.1 == input@.len() as u64 && MemoryRing::spec_pushed(
            old(st).ring,
            final(st).ring,
            input@,
        ),
        code == IOCTL_GLADIX_SEND_HOOK_EVENT && input@.len() > 0 && old(st).rundown.completed
            ==> r.0 == STATUS_DEVICE_NOT_READY && *final(st) == *old(st),
        code == IOCTL_GLADIX_SEND_HOOK_EVENT && input@.len() == 0 ==> r.0
            == STATUS_INVALID_PARAMETER && *final(st) == *old(st),
        code == IOCTL_GLADIX_UNREGISTER_CALLBACKS && passive ==> r.0 == STATUS_SUCCESS && r.2@
            == spec_prepare_unload_trace(old(st).cb_mask) && final(st).rundown.completed,
        code == IOCTL_GLADIX_UNREGISTER_CALLBACKS && !passive ==> r.0
            == STATUS_INVALID_DEVICE_STATE && *final(st) == *old(st),
{
    if code == IOCTL_GLADIX_GET_SECTION_HANDLE {
        let (status, information) = handle_get_section_handle(out_len, open_status, handle_is_null);
        (status, information, Vec::new())
    } else if code == IOCTL_GLADIX_SEND_HOOK_EVENT {
        let (status, information) = handle_send_hook_event(st, input);
        (status, information, Vec::new())
    } else if code == IOCTL_GLADIX_UNREGISTER_CALLBACKS {
        let (status, trace) = handle_prepare_unload(st, passive);
        (status, 0, trace)
    } else {
        (STATUS_INVALID_PARAMETER, 0, Vec::new())
    }
}

} // verus!
