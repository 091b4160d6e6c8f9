//! The telemetry event model: one envelope with a kind for each source.
//!
//! On the wire an event is an opaque serialized payload framed by the
//! ring; these types are what the producers snapshot and the consumer
//! stores.  The constructors wrap a child event into the top-level
//! envelope so call sites stay uniform.

use vstd::prelude::*;

verus! {

/// Snapshot of a process-creation notification.
pub struct ProcessEvent {
    /// Process identifier of the new process.
    pub pid: u32,
    /// Parent process identifier.
    pub ppid: u32,
    /// Full image path of the new process.
    pub image_path: String,
    /// Command line of the new process.
    pub cmdline: String,
}

/// Snapshot of an image-load notification.
pub struct ImageLoadEvent {
    /// Base address the image was mapped at.
    pub image_base: u64,
    /// Size of the mapped image in bytes.
    pub image_size: u32,
    /// Full path of the image file.
    pub full_image_name: String,
    /// Process the image was mapped into.
    pub process_id: u32,
}

/// Snapshot of a registry set-value notification.
pub struct RegistryEvent {
    /// NT path of the key being written.
    pub key_path: String,
    /// Operation discriminator of the store's schema.
    pub op_type: i32,
    /// Previous value bytes, when available.
    pub old_value: Vec<u8>,
    /// New value bytes.
    pub new_value: Vec<u8>,
    /// Process performing the write.
    pub process_id: u32,
}

/// Parameter snapshot of one intercepted system call.
pub enum HookPayload {
    /// Thread creation in a (possibly remote) process.
    NtCreateThreadEx {
        /// Entry point of the new thread.
        start_routine: u64,
        /// Argument handed to the entry point.
        start_argument: u64,
        /// Creation flags.
        create_flags: u32,
        /// Target process handle value.
        process_handle: u64,
        /// Requested access mask.
        desired_access: u32,
    },
    /// Mapping a section into a process.
    NtMapViewOfSection {
        /// Base address of the new view.
        base_address: u64,
        /// Size of the view in bytes.
        view_size: u64,
        /// Requested page protection.
        win32_protect: u32,
        /// Allocation type flags.
        allocation_type: u32,
        /// Target process handle value.
        process_handle: u64,
    },
    /// Changing page protection in a process.
    NtProtectVirtualMemory {
        /// Base address of the affected region.
        base_address: u64,
        /// Size of the affected region.
        region_size: u64,
        /// Protection being applied.
        new_protect: u32,
        /// Protection before the call.
        old_protect: u32,
    },
    /// Writing a registry value.
    NtSetValueKey {
        /// Path of the key being written.
        key_path: String,
        /// Name of the value.
        value_name: String,
        /// Type of the value data.
        value_type: u32,
        /// Size of the value data in bytes.
        data_size: u64,
    },
}

/// Event emitted by the in-process hooking library.
pub struct HookEvent {
    /// Process the hook fired in.
    pub pid: u32,
    /// Thread the hook fired on.
    pub tid: u32,
    /// Status the original system call returned.
    pub status: i64,
    /// The intercepted call's parameter snapshot.
    pub payload: Option<HookPayload>,
}

/// Event emitted by the file-signature scanner.
pub struct FileScannerEvent {
    /// Path of the file that matched.
    pub file: String,
    /// Identifier of the matching rule.
    pub rule_name: String,
}

/// Which source produced an event.
pub enum EventKind {
    /// From the in-process hooking library.
    Hook(HookEvent),
    /// From the file-signature scanner.
    Scanner(FileScannerEvent),
    /// From the process-creation callback.
    ProcessEvent(ProcessEvent),
    /// From the image-load callback.
    ImageLoad(ImageLoadEvent),
    /// From the registry callback.
    Registry(RegistryEvent),
}

/// The top-level telemetry envelope.
pub struct Event {
    /// The wrapped event, absent in a malformed envelope.
    pub kind: Option<EventKind>,
}

impl Event {
    /// Wrap a hook event into a top-level event.
    pub fn from_hook(h: HookEvent) -> (r: Event)
        ensures
            r.kind == Some(EventKind::Hook(h)),
    {
        Event { kind: Some(EventKind::Hook(h)) }
    }

    /// Wrap a scanner event into a top-level event.
    pub fn from_scanner(s: FileScannerEvent) -> (r: Event)
        ensures
            r.kind == Some(EventKind::Scanner(s)),
    {
        Event { kind: Some(EventKind::Scanner(s)) }
    }

    /// Wrap a process event into a top-level event.
    pub fn from_process(p: ProcessEvent) -> (r: Event)
        ensures
            r.kind == Some(EventKind::ProcessEvent(p)),
    {
        Event { kind: Some(EventKind::ProcessEvent(p)) }
    }

    /// Wrap an image-load event into a top-level event.
    pub fn from_image_load(il: ImageLoadEvent) -> (r: Event)
        ensures
            r.kind == Some(EventKind::ImageLoad(il)),
    {
        Event { kind: Some(EventKind::ImageLoad(il)) }
    }

    /// Wrap a registry event into a top-level event.
    pub fn from_registry(re: RegistryEvent) -> (r: Event)
        ensures
            r.kind == Some(EventKind::Registry(re)),
    {
        Event { kind: Some(EventKind::Registry(re)) }
    }

    /// Wrap a copy of a hook event when only a reference is at hand.
    pub fn from_hook_ref(h: &HookEvent) -> (r: Event)
        ensures
            r.kind matches Some(EventKind::Hook(c)) && spec_hook_like(c, *h),
    {
        let copy = HookEvent {
            pid: h.pid,
            tid: h.tid,
            status: h.status,
            payload: clone_payload(&h.payload),
        };
        Event { kind: Some(EventKind::Hook(copy)) }
    }

    /// Wrap a copy of a scanner event when only a reference is at hand.
    pub fn from_scanner_ref(s: &FileScannerEvent) -> (r: Event)
        ensures
            r.kind matches Some(EventKind::Scanner(c)) && c.file@ == s.file@ && c.rule_name@
                == s.rule_name@,
    {
        let copy = FileScannerEvent { file: s.file.clone(), rule_name: s.rule_name.clone() };
        Event { kind: Some(EventKind::Scanner(copy)) }
    }

    /// Wrap a copy of a process event when only a reference is at hand.
    pub fn from_process_ref(p: &ProcessEvent) -> (r: Event)
        ensures
            r.kind matches Some(EventKind::ProcessEvent(c)) && c.pid == p.pid && c.ppid == p.ppid
                && c.image_path@ == p.image_path@ && c.cmdline@ == p.cmdline@,
    {
        let copy = ProcessEvent {
            pid: p.pid,
            ppid: p.ppid,
            image_path: p.image_path.clone(),
            cmdline: p.cmdline.clone(),
        };
        Event { kind: Some(EventKind::ProcessEvent(copy)) }
    }

    /// Wrap a copy of an image-load event when only a reference is at
    /// hand.
    pub fn from_image_load_ref(il: &ImageLoadEvent) -> (r: Event)
        ensures
            r.kind matches Some(EventKind::ImageLoad(c)) && c.image_base == il.image_base
                && c.image_size == il.image_size && c.full_image_name@ == il.full_image_name@
                && c.process_id == il.process_id,
    {
        let copy = ImageLoadEvent {
            image_base: il.image_base,
            image_size: il.image_size,
            full_image_name: il.full_image_name.clone(),
            process_id: il.process_id,
        };
        Event { kind: Some(EventKind::ImageLoad(copy)) }
    }

    /// Wrap a copy of a registry event when only a reference is at hand.
    pub fn from_registry_ref(re: &RegistryEvent) -> (r: Event)
        ensures
            r.kind matches Some(EventKind::Registry(c)) && c.key_path@ == re.key_path@ && c.op_type
                == re.op_type && c.old_value@ == re.old_value@ && c.new_value@ == re.new_value@
                && c.process_id == re.process_id,
    {
        let copy = RegistryEvent {
            key_path: re.key_path.clone(),
            op_type: re.op_type,
            old_value: clone_bytes(&re.old_value),
            new_value: clone_bytes(&re.new_value),
            process_id: re.process_id,
        };
        Event { kind: Some(EventKind::Registry(copy)) }
    }
}

/// Two hook events carry the same observable data, with string fields
/// compared by contents.
pub open spec fn spec_hook_like(a: HookEvent, b: HookEvent) -> bool {
    &&& a.pid == b.pid
    &&& a.tid == b.tid
    &&& a.status == b.status
    &&& a.payload is Some == b.payload is Some
    &&& a.payload is Some ==> spec_payload_like(a.payload.unwrap(), b.payload.unwrap())
}

/// Two hook payloads carry the same observable data.
pub open spec fn spec_payload_like(a: HookPayload, b: HookPayload) -> bool {
    match (a, b) {
        (
            HookPayload::NtCreateThreadEx {
                start_routine: sr_a,
                start_argument: sa_a,
                create_flags: cf_a,
                process_handle: ph_a,
                desired_access: da_a,
            },
            HookPayload::NtCreateThreadEx {
                start_routine: sr_b,
                start_argument: sa_b,
                create_flags: cf_b,
                process_handle: ph_b,
                desired_access: da_b,
            },
        ) => sr_a == sr_b && sa_a == sa_b && cf_a == cf_b && ph_a == ph_b && da_a == da_b,
        (
            HookPayload::NtMapViewOfSection {
                base_address: ba_a,
                view_size: vs_a,
                win32_protect: wp_a,
                allocation_type: at_a,
                process_handle: ph_a,
            },
            HookPayload::NtMapViewOfSection {
                base_address: ba_b,
                view_size: vs_b,
                win32_protect: wp_b,
                allocation_type: at_b,
                process_handle: ph_b,
            },
        ) => ba_a == ba_b && vs_a == vs_b && wp_a == wp_b && at_a == at_b && ph_a == ph_b,
        (
            HookPayload::NtProtectVirtualMemory {
                base_address: ba_a,
                region_size: rs_a,
                new_protect: np_a,
                old_protect: op_a,
            },
            HookPayload::NtProtectVirtualMemory {
                base_address: ba_b,
                region_size: rs_b,
                new_protect: np_b,
                old_protect: op_b,
            },
        ) => ba_a == ba_b && rs_a == rs_b && np_a == np_b && op_a == op_b,
        (
            HookPayload::NtSetValueKey {
                key_path: kp_a,
                value_name: vn_a,
                value_type: vt_a,
                data_size: ds_a,
            },
            HookPayload::NtSetValueKey {
                key_path: kp_b,
                value_name: vn_b,
                value_type: vt_b,
                data_size: ds_b,
            },
        ) => kp_a@ == kp_b@ && vn_a@ == vn_b@ && vt_a == vt_b && ds_a == ds_b,
        _ => false,
    }
}

/// A verified copy of a byte vector.
fn clone_bytes(v: &Vec<u8>) -> (r: Vec<u8>)
    ensures
        r@ == v@,
{
    let mut r: Vec<u8> = Vec::new();
    let mut i: usize = 0;
    while i < v.len()
        invariant
            i <= v@.len(),
            r@ =~= v@.take(i as int),
        decreases v@.len() - i,
    {
        r.push(v[i]);
        proof {
            assert(r@ =~= v@.take(i as int + 1));
        }
        i = i + 1;
    }
    proof {
        assert(v@.take(v@.len() as int) =~= v@);
    }
    r
}

/// A copy of a hook payload with the same observable data.
fn clone_payload(p: &Option<HookPayload>) -> (r: Option<HookPayload>)
    ensures
        r is Some == p is Some,
        p is Some ==> spec_payload_like(r.unwrap(), p.unwrap()),
{
    match p {
        Option::None => None,
        Option::Some(HookPayload::NtCreateThreadEx {
            start_routine,
            start_argument,
            create_flags,
            process_handle,
            desired_access,
        }) => Some(
            HookPayload::NtCreateThreadEx {
                start_routine: *start_routine,
                start_argument: *start_argument,
                create_flags: *create_flags,
                process_handle: *process_handle,
                desired_access: *desired_access,
            },
        ),
        Option::Some(HookPayload::NtMapViewOfSection {
            base_address,
            view_size,
            win32_protect,
            allocation_type,
            process_handle,
        }) => Some(
            HookPayload::NtMapViewOfSection {
                base_address: *base_address,
                view_size: *view_size,
                win32_protect: *win32_protect,
                allocation_type: *allocation_type,
                process_handle: *process_handle,
            },
        ),
        Option::Some(HookPayload::NtProtectVirtualMemory {
            base_address,
            region_size,
            new_protect,
            old_protect,
        }) => Some(
            HookPayload::NtProtectVirtualMemory {
                base_address: *base_address,
                region_size: *region_size,
                new_protect: *new_protect,
                old_protect: *old_protect,
            },
        ),
        Option::Some(HookPayload::NtSetValueKey { key_path, value_name, value_type, data_size }) => Some(
            HookPayload::NtSetValueKey {
                key_path: key_path.clone(),
                value_name: value_name.clone(),
                value_type: *value_type,
                data_size: *data_size,
            },
        ),
    }
}

} // verus!
