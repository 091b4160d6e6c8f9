//! Scenario tests of the rundown barrier and the driver's guard
//! protocol around it.

use gladix_core::entry::{driver_entry_plan, driver_unload_plan, InitAction};
use gladix_core::driver::{
    active_count, begin_unload, clear_ring, clear_rundown_ptr, enter, init_rundown, leave,
    push_event, set_ring, set_rundown_ptr, wait_for_zero, DriverState,
};
use gladix_core::ring::MemoryRing;
use gladix_core::rundown::Rundown;

#[test]
fn rundown_drain_with_eight_holders() {
    // Eight concurrent handlers acquire; teardown completes the barrier;
    // every later acquire fails; the drain wait is satisfied only after
    // all eight have released.
    let mut rd = Rundown::new();
    for _ in 0..8 {
        assert!(rd.acquire());
    }
    assert_eq!(rd.in_flight, 8);
    rd.complete();
    assert!(!rd.acquire());
    assert_eq!(rd.in_flight, 8);
    for left in (0..8u32).rev() {
        assert!(!rd.is_drained());
        rd.release();
        assert_eq!(rd.in_flight, left);
    }
    assert!(rd.is_drained());
    assert!(!rd.acquire());
    assert!(rd.is_drained());
}

#[test]
fn acquire_fails_after_complete() {
    let mut rd = Rundown::new();
    assert!(rd.acquire());
    rd.release();
    rd.complete();
    assert!(!rd.acquire());
    assert!(!rd.acquire());
    assert_eq!(rd.in_flight, 0);
}

#[test]
fn guard_scope_enters_and_leaves() {
    let ring = MemoryRing::new(64);
    let mut st = DriverState::new(ring);
    init_rundown(&mut st);
    set_rundown_ptr(&mut st);
    let scope = enter(&mut st);
    assert!(scope.acquired);
    assert_eq!(active_count(&st), 1);
    assert_eq!(st.rundown.in_flight, 1);
    leave(&mut st, scope);
    assert_eq!(active_count(&st), 0);
    assert_eq!(st.rundown.in_flight, 0);
}

#[test]
fn enter_fails_without_published_pointer() {
    let ring = MemoryRing::new(64);
    let mut st = DriverState::new(ring);
    let scope = enter(&mut st);
    assert!(!scope.acquired);
    assert_eq!(active_count(&st), 0);
    leave(&mut st, scope);
    assert_eq!(active_count(&st), 0);
}

#[test]
fn enter_fails_once_unload_begins() {
    let ring = MemoryRing::new(64);
    let mut st = DriverState::new(ring);
    set_rundown_ptr(&mut st);
    let held = enter(&mut st);
    assert!(held.acquired);
    begin_unload(&mut st);
    let late = enter(&mut st);
    assert!(!late.acquired);
    assert!(!wait_for_zero(&st));
    leave(&mut st, held);
    assert!(wait_for_zero(&st));
    clear_rundown_ptr(&mut st);
    assert!(!st.rundown_published);
}

#[test]
fn push_event_requires_published_ring() {
    let ring = MemoryRing::new(64);
    let mut st = DriverState::new(ring);
    push_event(&mut st, &[1, 2, 3]);
    assert_eq!(st.ring.head, 0);
    set_ring(&mut st);
    push_event(&mut st, &[1, 2, 3]);
    assert_eq!(st.ring.head, 7);
    let frame = st.ring.read_next().expect("published push lands in the ring");
    assert_eq!(frame, vec![1, 2, 3]);
    clear_ring(&mut st);
    push_event(&mut st, &[9, 9]);
    assert_eq!(st.ring.head, 7);
}

#[test]
fn driver_load_rolls_back_in_reverse_on_failure() {
    // Every step succeeds: the load completes with no rollback.
    let (status, trace) = driver_entry_plan(None, None, None, None);
    assert_eq!(status, 0);
    assert_eq!(
        trace,
        vec![
            InitAction::CreateDevice,
            InitAction::CreateRing,
            InitAction::PublishRundown,
            InitAction::RecreateDosLink,
            InitAction::RegisterCallbacks,
            InitAction::InstallDispatch,
        ]
    );
    // The symbolic link fails: the rundown pointer, the extension and
    // the device are unwound in reverse order of creation.
    let (status, trace) = driver_entry_plan(None, None, Some(-3), None);
    assert_eq!(status, -3);
    assert_eq!(
        trace,
        vec![
            InitAction::CreateDevice,
            InitAction::CreateRing,
            InitAction::PublishRundown,
            InitAction::ClearRundownPtr,
            InitAction::DropDeviceExtension,
            InitAction::DeleteDevice,
        ]
    );
    // Callback registration fails: the link goes first, then the rest.
    let (status, trace) = driver_entry_plan(None, None, None, Some(-9));
    assert_eq!(status, -9);
    assert_eq!(trace[4], InitAction::DeleteSymbolicLink);
    assert_eq!(trace[trace.len() - 1], InitAction::DeleteDevice);
    // The ring fails: only the device exists, and it is deleted.
    let (status, trace) = driver_entry_plan(None, Some(-2), None, None);
    assert_eq!(status, -2);
    assert_eq!(trace, vec![InitAction::CreateDevice, InitAction::DeleteDevice]);
    // A failing device creation leaves nothing to unwind.
    let (status, trace) = driver_entry_plan(Some(-1), None, None, None);
    assert_eq!(status, -1);
    assert!(trace.is_empty());
    // Unload removes the link, the extension and the device, in order.
    assert_eq!(
        driver_unload_plan(),
        vec![
            InitAction::DeleteSymbolicLink,
            InitAction::DropDeviceExtension,
            InitAction::DeleteDevice,
        ]
    );
}
