//! Driver load and unload orchestration.
//!
//! Loading creates the device, the shared ring and the symbolic link,
//! publishes the rundown pointer and registers the callbacks; any
//! failure rolls the earlier steps back in reverse so a later load
//! starts clean.  Each step is an operating-system call whose outcome is
//! handed in; which steps run, and in which order the rollback unwinds,
//! is decided and proved here.

use vstd::prelude::*;

verus! {

/// One step of driver load or unload.
#[derive(Clone, Copy, PartialEq, Eq, Structural, Debug)]
pub enum InitAction {
    /// Create the device object with room for the device extension.
    CreateDevice,
    /// Create and map the shared ring section.
    CreateRing,
    /// Initialize and publish the rundown pointer.
    PublishRundown,
    /// Delete any stale symbolic link and create a fresh one.
    RecreateDosLink,
    /// Register the callback families transactionally.
    RegisterCallbacks,
    /// Install the create, close and device-control dispatchers.
    InstallDispatch,
    /// Remove the symbolic link.
    DeleteSymbolicLink,
    /// Clear the published rundown pointer.
    ClearRundownPtr,
    /// Run the device extension's destructors.
    DropDeviceExtension,
    /// Delete the device object.
    DeleteDevice,
}

/// The steps a driver load performs for given step outcomes, rollback
/// included.
pub open spec fn spec_entry_trace(
    st_device: Option<i32>,
    st_ring: Option<i32>,
    st_link: Option<i32>,
    st_callbacks: Option<i32>,
) -> Seq<InitAction> {
    if st_device is Some {
        Seq::<InitAction>::empty()
    } else if st_ring is Some {
        seq![InitAction::CreateDevice, InitAction::DeleteDevice]
    } else if st_link is Some {
        seq![
            InitAction::CreateDevice,
            InitAction::CreateRing,
            InitAction::PublishRundown,
            InitAction::ClearRundownPtr,
            InitAction::DropDeviceExtension,
            InitAction::DeleteDevice,
        ]
    } else if st_callbacks is Some {
        seq![
            InitAction::CreateDevice,
            InitAction::CreateRing,
            InitAction::PublishRundown,
            InitAction::RecreateDosLink,
            InitAction::DeleteSymbolicLink,
            InitAction::ClearRundownPtr,
            InitAction::DropDeviceExtension,
            InitAction::DeleteDevice,
        ]
    } else {
        seq![
            InitAction::CreateDevice,
            InitAction::CreateRing,
            InitAction::PublishRundown,
            InitAction::RecreateDosLink,
            InitAction::RegisterCallbacks,
            InitAction::InstallDispatch,
        ]
    }
}

/// Plan a driver load from the outcomes of its fallible steps (`None`
/// is success, `Some(status)` the failing status): the device, the
/// ring, the symbolic link and the callback registration, attempted in
/// that order.  The first failure stops the load, unwinds the earlier
/// steps in reverse, and its status is returned; with no failure every
/// step runs and the load succeeds.
pub fn driver_entry_plan(
    st_device: Option<i32>,
    st_ring: Option<i32>,
    st_link: Option<i32>,
    st_callbacks: Option<i32>,
) -> (r: (i32, Vec<InitAction>))
    ensures
        r.1@ == spec_entry_trace(st_device, st_ring, st_link, st_callbacks),
        st_device is Some ==> r.0 == st_device.unwrap(),
        st_device is None && st_ring is Some ==> r.0 == st_ring.unwrap(),
        st_device is None && st_ring is None && st_link is Some ==> r.0 == st_link.unwrap(),
        st_device is None && st_ring is None && st_link is None && st_callbacks is Some ==> r.0
            == st_callbacks.unwrap(),
        st_device is None && st_ring is None && st_link is None && st_callbacks is None ==> r.0
            == 0,
{
    let mut trace: Vec<InitAction> = Vec::new();
    if let Some(status) = st_device {
        return (status, trace);
    }
    trace.push(InitAction::CreateDevice);
    if let Some(status) = st_ring {
        trace.push(InitAction::DeleteDevice);
        proof {
            assert(trace@ =~= spec_entry_trace(st_device, st_ring, st_link, st_callbacks));
        }
        return (status, trace);
    }
    trace.push(InitAction::CreateRing);
    trace.push(InitAction::PublishRundown);
    if let Some(status) = st_link {
        trace.push(InitAction::ClearRundownPtr);
        trace.push(InitAction::DropDeviceExtension);
        trace.push(InitAction::DeleteDevice);
        proof {
            assert(trace@ =~= spec_entry_trace(st_device, st_ring, st_link, st_callbacks));
        }
        return (status, trace);
    }
    trace.push(InitAction::RecreateDosLink);
    if let Some(status) = st_callbacks {
        trace.push(InitAction::DeleteSymbolicLink);
        trace.push(InitAction::ClearRundownPtr);
        trace.push(InitAction::DropDeviceExtension);
        trace.push(InitAction::DeleteDevice);
        proof {
            assert(trace@ =~= spec_entry_trace(st_device, st_ring, st_link, st_callbacks));
        }
        return (status, trace);
    }
    trace.push(InitAction::RegisterCallbacks);
    trace.push(InitAction::InstallDispatch);
    proof {
        assert(trace@ =~= spec_entry_trace(st_device, st_ring, st_link, st_callbacks));
    }
    (0, trace)
}

/// Plan the unload of a loaded driver: remove the symbolic link, run
/// the device extension's destructors (unmapping the ring), and delete
/// the device, in that order.
pub fn driver_unload_plan() -> (trace: Vec<InitAction>)
    ensures
        trace@ == seq![
            InitAction::DeleteSymbolicLink,
            InitAction::DropDeviceExtension,
            InitAction::DeleteDevice,
        ],
{
    let mut trace: Vec<InitAction> = Vec::new();
    trace.push(InitAction::DeleteSymbolicLink);
    trace.push(InitAction::DropDeviceExtension);
    trace.push(InitAction::DeleteDevice);
    proof {
        assert(trace@ =~= seq![
            InitAction::DeleteSymbolicLink,
            InitAction::DropDeviceExtension,
            InitAction::DeleteDevice,
        ]);
    }
    trace
}

} // verus!
