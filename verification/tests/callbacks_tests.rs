//! Scenario tests of the transactional registration orchestrator, the
//! teardown traces, and the callback handlers.

use gladix_core::callbacks::{
    register_all, unregister_all, unregister_mask, CallbackAction, CallbackFamily, CallbackMask,
};
use gladix_core::driver::{set_ring, set_rundown_ptr, begin_unload, DriverState};
use gladix_core::handlers::{
    on_image_load, on_process_create, on_registry_setvalue, HandlerOutcome, RegNotifyClass,
};
use gladix_core::ring::MemoryRing;

fn fresh_state() -> DriverState {
    DriverState::new(MemoryRing::new(256))
}

#[test]
fn register_all_succeeds_with_full_mask() {
    let mut st = fresh_state();
    let (result, trace) = register_all(&mut st, None, None, None);
    let mask = result.expect("all families registered");
    assert!(mask.proc && mask.img && mask.reg);
    assert!(st.ring_published);
    assert_eq!(
        trace,
        vec![
            CallbackAction::PublishRing,
            CallbackAction::Register(CallbackFamily::Process),
            CallbackAction::Register(CallbackFamily::ImageLoad),
            CallbackAction::Register(CallbackFamily::Registry),
        ]
    );
}

#[test]
fn failure_at_third_family_rolls_back_in_reverse() {
    // The registry family fails: the first two are unregistered in
    // reverse order and the published ring pointer is cleared.
    let mut st = fresh_state();
    let (result, trace) = register_all(&mut st, None, None, Some(-1073741823));
    assert_eq!(result.unwrap_err(), -1073741823);
    assert!(!st.ring_published);
    assert_eq!(
        trace,
        vec![
            CallbackAction::PublishRing,
            CallbackAction::Register(CallbackFamily::Process),
            CallbackAction::Register(CallbackFamily::ImageLoad),
            CallbackAction::Unregister(CallbackFamily::ImageLoad),
            CallbackAction::Unregister(CallbackFamily::Process),
            CallbackAction::ClearRing,
        ]
    );
}

#[test]
fn failure_at_first_family_registers_nothing() {
    let mut st = fresh_state();
    let (result, trace) = register_all(&mut st, Some(-5), None, None);
    assert_eq!(result.unwrap_err(), -5);
    assert!(!st.ring_published);
    assert_eq!(trace, vec![CallbackAction::PublishRing, CallbackAction::ClearRing]);
}

#[test]
fn failure_at_second_family_undoes_the_first() {
    let mut st = fresh_state();
    let (result, trace) = register_all(&mut st, None, Some(-7), None);
    assert_eq!(result.unwrap_err(), -7);
    assert_eq!(
        trace,
        vec![
            CallbackAction::PublishRing,
            CallbackAction::Register(CallbackFamily::Process),
            CallbackAction::Unregister(CallbackFamily::Process),
            CallbackAction::ClearRing,
        ]
    );
}

#[test]
fn unregister_mask_is_reverse_order_and_precise() {
    let mut st = fresh_state();
    let trace = unregister_mask(&mut st, CallbackMask { proc: true, img: false, reg: true });
    assert_eq!(
        trace,
        vec![
            CallbackAction::Unregister(CallbackFamily::Registry),
            CallbackAction::Unregister(CallbackFamily::Process),
            CallbackAction::ClearRing,
        ]
    );
    assert!(!st.ring_published);
}

#[test]
fn unregister_all_tries_every_family() {
    let mut st = fresh_state();
    let trace = unregister_all(&mut st);
    assert_eq!(
        trace,
        vec![
            CallbackAction::Unregister(CallbackFamily::Registry),
            CallbackAction::Unregister(CallbackFamily::ImageLoad),
            CallbackAction::Unregister(CallbackFamily::Process),
            CallbackAction::ClearRing,
        ]
    );
}

#[test]
fn mask_any_reports_registration() {
    assert!(!CallbackMask { proc: false, img: false, reg: false }.any());
    assert!(CallbackMask { proc: true, img: false, reg: false }.any());
    assert!(CallbackMask { proc: false, img: false, reg: true }.any());
}

#[test]
fn process_handler_emits_into_the_ring() {
    let mut st = fresh_state();
    set_ring(&mut st);
    set_rundown_ptr(&mut st);
    let encoded = [0xDE, 0xAD, 0xBE, 0xEF];
    let outcome = on_process_create(&mut st, 4242, "C:\\Users\\someone\\tool.exe", &encoded);
    assert_eq!(outcome, HandlerOutcome::Emitted);
    assert_eq!(st.rundown.in_flight, 0);
    let frame = st.ring.read_next().expect("the event was pushed");
    assert_eq!(frame, encoded.to_vec());
}

#[test]
fn process_handler_filters_low_pids_and_empty_paths() {
    let mut st = fresh_state();
    set_ring(&mut st);
    set_rundown_ptr(&mut st);
    assert_eq!(
        on_process_create(&mut st, 50, "C:\\Windows\\System32\\svchost.exe", &[1]),
        HandlerOutcome::Filtered
    );
    assert_eq!(on_process_create(&mut st, 500, "", &[1]), HandlerOutcome::Filtered);
    assert!(st.ring.read_next().is_none());
}

#[test]
fn handlers_back_off_during_teardown() {
    let mut st = fresh_state();
    set_ring(&mut st);
    set_rundown_ptr(&mut st);
    begin_unload(&mut st);
    assert_eq!(
        on_process_create(&mut st, 4242, "C:\\tool.exe", &[1]),
        HandlerOutcome::NotProtected
    );
    assert_eq!(
        on_image_load(&mut st, 4242, "C:\\mod.dll", 0x10000, &[1]),
        HandlerOutcome::NotProtected
    );
    assert!(st.ring.read_next().is_none());
}

#[test]
fn image_handler_applies_the_image_filter() {
    let mut st = fresh_state();
    set_ring(&mut st);
    set_rundown_ptr(&mut st);
    assert_eq!(
        on_image_load(&mut st, 4, "C:\\Windows\\System32\\kernel32.dll", 0x10000, &[1]),
        HandlerOutcome::Filtered
    );
    assert_eq!(
        on_image_load(&mut st, 4242, "C:\\Users\\someone\\payload.dll", 0x10000, &[2, 2]),
        HandlerOutcome::Emitted
    );
    let frame = st.ring.read_next().expect("kept image load");
    assert_eq!(frame, vec![2, 2]);
}

#[test]
fn registry_handler_ignores_other_classes() {
    let mut st = fresh_state();
    set_ring(&mut st);
    set_rundown_ptr(&mut st);
    assert_eq!(
        on_registry_setvalue(
            &mut st,
            RegNotifyClass::Other,
            "\\REGISTRY\\MACHINE\\SOFTWARE\\Microsoft\\Windows\\CurrentVersion\\Run",
            None,
            &[1]
        ),
        HandlerOutcome::Ignored
    );
    assert_eq!(
        on_registry_setvalue(
            &mut st,
            RegNotifyClass::PreSetValueKey,
            "\\REGISTRY\\MACHINE\\SOFTWARE\\Microsoft\\Windows\\CurrentVersion\\Run",
            Some("Updater"),
            &[3, 3, 3]
        ),
        HandlerOutcome::Emitted
    );
    assert_eq!(
        on_registry_setvalue(
            &mut st,
            RegNotifyClass::PreSetValueKey,
            "\\REGISTRY\\MACHINE\\SOFTWARE\\Classes\\txtfile",
            None,
            &[4]
        ),
        HandlerOutcome::Filtered
    );
    let frame = st.ring.read_next().expect("kept registry write");
    assert_eq!(frame, vec![3, 3, 3]);
    assert!(st.ring.read_next().is_none());
}
