//! Names and sizes of the system objects the components rendezvous on.

use vstd::prelude::*;

verus! {

/// NT path of the shared ring section, as the driver creates it.
pub const KERNEL_SHARED_SECTION_NAME: &'static str = "\\BaseNamedObjects\\Global\\GladixSharedSection";

/// User-mode name of the shared ring section.
pub const USER_SHARED_SECTION_NAME: &'static str = "Global\\GladixSharedSection";

/// Bytes of the ring's data region (the section adds the header).
pub const SHARED_SECTION_SIZE: usize = 1048576;

/// Kernel name of the device object.
pub const DEVICE_INTERNAL_NAME: &'static str = "\\Device\\GladixDrv";

/// Symbolic link the driver re-creates on each load.
pub const DEVICE_SYMBOLIC_NAME: &'static str = "\\DosDevices\\Gladix";

/// Path user processes open the device under.
pub const ALT_DEVICE_SYMBOLIC_NAME: &'static str = "\\\\.\\Gladix";

} // verus!
