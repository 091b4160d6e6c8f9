//! Tests of the device-control interface: code composition, the three
//! request handlers, and the dispatcher.

use gladix_core::callbacks::{CallbackAction, CallbackFamily, CallbackMask};
use gladix_core::driver::DriverState;
use gladix_core::ioctl::{
    ctl_code, section_handle_reply_ok, dispatch_close, dispatch_create, dispatch_device_control, handle_get_section_handle,
    handle_prepare_unload, handle_send_hook_event, FILE_ANY_ACCESS, FILE_DEVICE_UNKNOWN,
    HANDLE_SIZE, IOCTL_GLADIX_GET_SECTION_HANDLE, IOCTL_GLADIX_SEND_HOOK_EVENT,
    IOCTL_GLADIX_UNREGISTER_CALLBACKS, METHOD_BUFFERED, STATUS_BUFFER_TOO_SMALL,
    STATUS_DEVICE_NOT_READY, STATUS_INVALID_DEVICE_STATE, STATUS_INVALID_PARAMETER,
    STATUS_SUCCESS,
};
use gladix_core::ring::MemoryRing;

fn fresh_state() -> DriverState {
    DriverState::new(MemoryRing::new(128))
}

#[test]
fn control_codes_follow_the_formula() {
    assert_eq!(
        ctl_code(FILE_DEVICE_UNKNOWN, 0x801, METHOD_BUFFERED, FILE_ANY_ACCESS),
        IOCTL_GLADIX_GET_SECTION_HANDLE
    );
    assert_eq!(
        ctl_code(FILE_DEVICE_UNKNOWN, 0x802, METHOD_BUFFERED, FILE_ANY_ACCESS),
        IOCTL_GLADIX_SEND_HOOK_EVENT
    );
    assert_eq!(
        ctl_code(FILE_DEVICE_UNKNOWN, 0x803, METHOD_BUFFERED, FILE_ANY_ACCESS),
        IOCTL_GLADIX_UNREGISTER_CALLBACKS
    );
    assert_eq!(IOCTL_GLADIX_GET_SECTION_HANDLE, 0x222004);
    assert_eq!(IOCTL_GLADIX_SEND_HOOK_EVENT, 0x222008);
    assert_eq!(IOCTL_GLADIX_UNREGISTER_CALLBACKS, 0x22200C);
}

#[test]
fn section_handle_needs_a_pointer_sized_buffer() {
    assert_eq!(handle_get_section_handle(0, STATUS_SUCCESS, false), (STATUS_BUFFER_TOO_SMALL, 0));
    assert_eq!(handle_get_section_handle(7, STATUS_SUCCESS, false), (STATUS_BUFFER_TOO_SMALL, 0));
    let failing_open = -1073741772;
    assert_eq!(handle_get_section_handle(8, failing_open, true), (failing_open, 0));
    assert_eq!(handle_get_section_handle(8, STATUS_SUCCESS, true), (STATUS_SUCCESS, 0));
    assert_eq!(
        handle_get_section_handle(16, STATUS_SUCCESS, false),
        (STATUS_SUCCESS, HANDLE_SIZE as u64)
    );
}

#[test]
fn send_hook_event_rejects_empty_input() {
    let mut st = fresh_state();
    assert_eq!(handle_send_hook_event(&mut st, &[]), (STATUS_INVALID_PARAMETER, 0));
    assert_eq!(st.ring.head, 0);
}

#[test]
fn send_hook_event_is_refused_while_quiescing() {
    let mut st = fresh_state();
    st.rundown.complete();
    assert_eq!(handle_send_hook_event(&mut st, &[1, 2, 3]), (STATUS_DEVICE_NOT_READY, 0));
    assert_eq!(st.ring.head, 0);
    assert_eq!(st.rundown.in_flight, 0);
}

#[test]
fn send_hook_event_pushes_one_frame() {
    let mut st = fresh_state();
    let payload = [9u8, 8, 7, 6, 5];
    let (status, information) = handle_send_hook_event(&mut st, &payload);
    assert_eq!(status, STATUS_SUCCESS);
    assert_eq!(information, payload.len() as u64);
    assert_eq!(st.rundown.in_flight, 0);
    let frame = st.ring.read_next().expect("ingested frame");
    assert_eq!(frame, payload.to_vec());
}

#[test]
fn prepare_unload_requires_passive_level() {
    let mut st = fresh_state();
    let (status, trace) = handle_prepare_unload(&mut st, false);
    assert_eq!(status, STATUS_INVALID_DEVICE_STATE);
    assert!(trace.is_empty());
    assert!(!st.rundown.completed);
}

#[test]
fn prepare_unload_quiesces_and_unregisters_by_mask() {
    let mut st = fresh_state();
    st.cb_mask = CallbackMask { proc: true, img: true, reg: false };
    let (status, trace) = handle_prepare_unload(&mut st, true);
    assert_eq!(status, STATUS_SUCCESS);
    assert!(st.rundown.completed);
    assert_eq!(
        trace,
        vec![
            CallbackAction::Unregister(CallbackFamily::ImageLoad),
            CallbackAction::Unregister(CallbackFamily::Process),
        ]
    );
    // New ingests are refused from now on.
    assert_eq!(handle_send_hook_event(&mut st, &[1]), (STATUS_DEVICE_NOT_READY, 0));
}

#[test]
fn create_and_close_succeed_unconditionally() {
    assert_eq!(dispatch_create(), STATUS_SUCCESS);
    assert_eq!(dispatch_close(), STATUS_SUCCESS);
}

#[test]
fn dispatcher_routes_by_code() {
    let mut st = fresh_state();
    let (status, information, trace) = dispatch_device_control(
        &mut st,
        IOCTL_GLADIX_SEND_HOOK_EVENT,
        &[0xAB, 0xCD],
        0,
        true,
        STATUS_SUCCESS,
        false,
    );
    assert_eq!((status, information), (STATUS_SUCCESS, 2));
    assert!(trace.is_empty());
    assert_eq!(st.ring.read_next().expect("frame"), vec![0xAB, 0xCD]);

    let (status, information, _) = dispatch_device_control(
        &mut st,
        IOCTL_GLADIX_GET_SECTION_HANDLE,
        &[],
        16,
        true,
        STATUS_SUCCESS,
        false,
    );
    assert_eq!((status, information), (STATUS_SUCCESS, HANDLE_SIZE as u64));

    st.cb_mask = CallbackMask { proc: true, img: false, reg: false };
    let (status, _, trace) = dispatch_device_control(
        &mut st,
        IOCTL_GLADIX_UNREGISTER_CALLBACKS,
        &[],
        0,
        true,
        STATUS_SUCCESS,
        false,
    );
    assert_eq!(status, STATUS_SUCCESS);
    assert_eq!(trace, vec![CallbackAction::Unregister(CallbackFamily::Process)]);
    assert!(st.rundown.completed);
}

#[test]
fn dispatcher_refuses_unknown_codes() {
    let mut st = fresh_state();
    let (status, information, trace) =
        dispatch_device_control(&mut st, 0x9999, &[1], 8, true, STATUS_SUCCESS, false);
    assert_eq!((status, information), (STATUS_INVALID_PARAMETER, 0));
    assert!(trace.is_empty());
    assert_eq!(st.ring.head, 0);
}

#[test]
fn agent_accepts_only_a_complete_handle_reply() {
    assert!(section_handle_reply_ok(true, false, HANDLE_SIZE));
    assert!(!section_handle_reply_ok(false, false, HANDLE_SIZE));
    assert!(!section_handle_reply_ok(true, true, HANDLE_SIZE));
    assert!(!section_handle_reply_ok(true, false, 4));
}
