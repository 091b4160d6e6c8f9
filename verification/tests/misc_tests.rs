//! Tests of the supporting pieces: byte encoding, events, errors,
//! configuration validation, the scan cache, the console cleanup and the
//! re-entrancy guard.

use gladix_core::bytes::{u32_from_le_bytes, u32_to_le_vec, u64_to_le_vec};
use gladix_core::constants::{
    ALT_DEVICE_SYMBOLIC_NAME, DEVICE_INTERNAL_NAME, DEVICE_SYMBOLIC_NAME,
    KERNEL_SHARED_SECTION_NAME, SHARED_SECTION_SIZE, USER_SHARED_SECTION_NAME,
};
use gladix_core::cache::ScanCache;
use gladix_core::call_guard::{CallGuard, TlsSlot};
use gladix_core::cleanup::ConsoleCleanup;
use gladix_core::config::{
    Config, DatabaseConfig, DirectoryRisk, RiskGroupConfig, ScannerConfig, SynchronousMode,
};
use gladix_core::errors::{ConfigError, HookError};
use gladix_core::events::{
    Event, EventKind, FileScannerEvent, HookEvent, HookPayload, ImageLoadEvent, ProcessEvent,
    RegistryEvent,
};
use gladix_core::security::{
    descriptor_layout, SecurityDescriptor, MANDATORY_LABEL_NO_WRITE_UP, MEDIUM_INTEGRITY_RID,
    SECTION_RW_MASK,
};

#[test]
fn little_endian_round_trip() {
    let bytes = u32_to_le_vec(0x01020304);
    assert_eq!(bytes, vec![0x04, 0x03, 0x02, 0x01]);
    assert_eq!(u32_from_le_bytes(bytes[0], bytes[1], bytes[2], bytes[3]), 0x01020304);
    assert_eq!(u64_to_le_vec(0x1122334455667788), vec![0x88, 0x77, 0x66, 0x55, 0x44, 0x33, 0x22, 0x11]);
}

#[test]
fn event_constructors_wrap_the_kind() {
    let p = ProcessEvent {
        pid: 100,
        ppid: 4,
        image_path: "C:\\x.exe".to_string(),
        cmdline: "x.exe /a".to_string(),
    };
    match Event::from_process(p).kind {
        Some(EventKind::ProcessEvent(inner)) => {
            assert_eq!(inner.pid, 100);
            assert_eq!(inner.image_path, "C:\\x.exe");
        }
        _ => panic!("wrong kind"),
    }
    let il = ImageLoadEvent {
        image_base: 0x7FF000000000,
        image_size: 0x20000,
        full_image_name: "C:\\m.dll".to_string(),
        process_id: 321,
    };
    assert!(matches!(Event::from_image_load(il).kind, Some(EventKind::ImageLoad(_))));
    let re = RegistryEvent {
        key_path: "\\REGISTRY\\MACHINE\\SOFTWARE\\Gladix".to_string(),
        op_type: 1,
        old_value: vec![],
        new_value: vec![1, 2],
        process_id: 55,
    };
    assert!(matches!(Event::from_registry(re).kind, Some(EventKind::Registry(_))));
    let fs = FileScannerEvent { file: "C:\\bad.exe".to_string(), rule_name: "r1".to_string() };
    assert!(matches!(Event::from_scanner(fs).kind, Some(EventKind::Scanner(_))));
    let h = HookEvent { pid: 9, tid: 10, status: 0, payload: None };
    assert!(matches!(Event::from_hook(h).kind, Some(EventKind::Hook(_))));
}

#[test]
fn event_reference_constructors_copy_the_data() {
    let re = RegistryEvent {
        key_path: "\\REGISTRY\\USER\\S-1\\Run".to_string(),
        op_type: 1,
        old_value: vec![7],
        new_value: vec![8, 9],
        process_id: 55,
    };
    match Event::from_registry_ref(&re).kind {
        Some(EventKind::Registry(c)) => {
            assert_eq!(c.key_path, re.key_path);
            assert_eq!(c.old_value, re.old_value);
            assert_eq!(c.new_value, re.new_value);
        }
        _ => panic!("wrong kind"),
    }
    let h = HookEvent {
        pid: 9,
        tid: 10,
        status: -5,
        payload: Some(HookPayload::NtSetValueKey {
            key_path: "k".to_string(),
            value_name: "v".to_string(),
            value_type: 1,
            data_size: 12,
        }),
    };
    match Event::from_hook_ref(&h).kind {
        Some(EventKind::Hook(c)) => {
            assert_eq!(c.pid, 9);
            assert_eq!(c.status, -5);
            match c.payload {
                Some(HookPayload::NtSetValueKey { key_path, data_size, .. }) => {
                    assert_eq!(key_path, "k");
                    assert_eq!(data_size, 12);
                }
                _ => panic!("wrong payload"),
            }
        }
        _ => panic!("wrong kind"),
    }
    let p = ProcessEvent {
        pid: 1,
        ppid: 2,
        image_path: "i".to_string(),
        cmdline: "c".to_string(),
    };
    assert!(matches!(Event::from_process_ref(&p).kind, Some(EventKind::ProcessEvent(_))));
    let il = ImageLoadEvent {
        image_base: 1,
        image_size: 2,
        full_image_name: "f".to_string(),
        process_id: 3,
    };
    assert!(matches!(Event::from_image_load_ref(&il).kind, Some(EventKind::ImageLoad(_))));
    let fs = FileScannerEvent { file: "f".to_string(), rule_name: "r".to_string() };
    assert!(matches!(Event::from_scanner_ref(&fs).kind, Some(EventKind::Scanner(_))));
}

#[test]
fn error_messages_name_the_cause() {
    let e = HookError::UnknownEvent { event_type: "Frobnicate".to_string() };
    assert_eq!(e.message(), "Unknown hook event processed: Frobnicate");
    let io = ConfigError::Io { path: "C:\\config.toml".to_string() };
    assert_eq!(io.message(), "I/O error while accessing C:\\config.toml");
    let parse = ConfigError::Parse("unexpected token".to_string());
    assert_eq!(parse.message(), "TOML parse error: unexpected token");
    let val = ConfigError::Validation("rule".to_string());
    assert_eq!(val.message(), "Validation error: rule");
}

#[test]
fn synchronous_mode_keywords() {
    assert_eq!(SynchronousMode::Off.as_str(), "OFF");
    assert_eq!(SynchronousMode::Normal.as_str(), "NORMAL");
    assert_eq!(SynchronousMode::Full.as_str(), "FULL");
    assert_eq!(SynchronousMode::Extra.as_str(), "EXTRA");
}

fn sample_config(groups: Vec<(DirectoryRisk, RiskGroupConfig)>) -> Config {
    Config {
        database: DatabaseConfig {
            path: "telemetry.db".to_string(),
            purge_on_restart: true,
            synchronous: SynchronousMode::Normal,
            journal_size_limit: 20_000_000,
            checkpoint_seconds: 30,
            ttl_seconds: 3600,
            batch_size: 1000,
        },
        scanner: ScannerConfig {
            max_file_size_mb: 50,
            extensions: vec!["exe".to_string(), "dll".to_string()],
            rule_path: "rules.yar".to_string(),
            risk_groups: groups,
        },
    }
}

fn group(interval: Option<u64>) -> RiskGroupConfig {
    RiskGroupConfig { scheduled_interval: interval, directories: vec!["C:\\Users".to_string()] }
}

#[test]
fn config_with_all_risk_groups_validates() {
    let cfg = sample_config(vec![
        (DirectoryRisk::High, group(Some(62))),
        (DirectoryRisk::Medium, group(Some(100))),
        (DirectoryRisk::Low, group(None)),
        (DirectoryRisk::Special, group(None)),
    ]);
    assert!(cfg.validate_risk_groups().is_ok());
    assert!(cfg.validate().is_ok());
}

#[test]
fn config_missing_a_risk_group_is_rejected() {
    let cfg = sample_config(vec![
        (DirectoryRisk::High, group(Some(62))),
        (DirectoryRisk::Medium, group(None)),
        (DirectoryRisk::Low, group(None)),
    ]);
    assert!(matches!(cfg.validate_risk_groups(), Err(ConfigError::Validation(_))));
}

#[test]
fn config_needs_extensions_and_a_positive_limit() {
    let mut cfg = sample_config(vec![
        (DirectoryRisk::High, group(None)),
        (DirectoryRisk::Medium, group(None)),
        (DirectoryRisk::Low, group(None)),
        (DirectoryRisk::Special, group(None)),
    ]);
    cfg.scanner.extensions = vec![];
    assert!(matches!(cfg.validate(), Err(ConfigError::Validation(_))));
    cfg.scanner.extensions = vec!["exe".to_string()];
    cfg.scanner.max_file_size_mb = 0;
    assert!(matches!(cfg.validate(), Err(ConfigError::Validation(_))));
}

#[test]
fn scan_cache_remembers_stamps() {
    let mut cache = ScanCache::new();
    assert!(!cache.is_unchanged("C:\\a.exe", 100, 4096));
    cache.update("C:\\a.exe", 100, 4096);
    assert!(cache.is_unchanged("C:\\a.exe", 100, 4096));
    // A different stamp means the file changed.
    assert!(!cache.is_unchanged("C:\\a.exe", 101, 4096));
    assert!(!cache.is_unchanged("C:\\a.exe", 100, 4097));
    // Updating overwrites in place.
    cache.update("C:\\a.exe", 101, 5000);
    assert!(cache.is_unchanged("C:\\a.exe", 101, 5000));
    assert!(!cache.is_unchanged("C:\\a.exe", 100, 4096));
    assert_eq!(cache.entries.len(), 1);
    // Other paths are independent.
    cache.update("C:\\b.exe", 7, 8);
    assert!(cache.is_unchanged("C:\\b.exe", 7, 8));
    assert_eq!(cache.entries.len(), 2);
}

#[test]
fn console_cleanup_fires_once() {
    let mut cleanup = ConsoleCleanup::new();
    assert!(!cleanup.was_triggered());
    assert!(cleanup.fire_once());
    assert!(cleanup.was_triggered());
    assert!(!cleanup.fire_once());
    cleanup.trigger();
    assert!(cleanup.was_triggered());
}

#[test]
fn call_guard_short_circuits_reentry() {
    let mut slot = TlsSlot::new();
    let guard = CallGuard::enter(&mut slot).expect("first entry succeeds");
    // Re-entry on the same thread is refused while the guard is held.
    assert!(CallGuard::enter(&mut slot).is_none());
    guard.leave(&mut slot);
    // After leaving, the thread can enter again.
    let again = CallGuard::enter(&mut slot).expect("entry after leave succeeds");
    again.leave(&mut slot);
}

#[test]
fn section_policy_grants_map_rw_at_medium_no_write_up() {
    let sd = SecurityDescriptor::for_everyone();
    assert_eq!(sd.everyone_access, SECTION_RW_MASK);
    assert_eq!(sd.label_rid, MEDIUM_INTEGRITY_RID);
    assert_eq!(sd.label_policy, MANDATORY_LABEL_NO_WRITE_UP);
}

#[test]
fn descriptor_layout_packs_lists_in_one_allocation() {
    // Realistic structure sizes: descriptor 40, list header 8,
    // access-allowed entry 12, label entry 12, both principals 12 bytes.
    let layout = descriptor_layout(40, 8, 12, 12, 12, 12);
    assert_eq!(layout.dacl_offset, 40);
    assert_eq!(layout.sacl_offset, 40 + 8 + 20);
    assert_eq!(layout.total, 68 + 8 + 20);
}

#[test]
fn rendezvous_names_are_consistent() {
    // Both section paths name the same global object.
    assert!(KERNEL_SHARED_SECTION_NAME.ends_with(USER_SHARED_SECTION_NAME));
    assert!(KERNEL_SHARED_SECTION_NAME.starts_with("\\BaseNamedObjects\\"));
    assert_eq!(SHARED_SECTION_SIZE, 1024 * 1024);
    assert!(DEVICE_INTERNAL_NAME.starts_with("\\Device\\"));
    assert!(DEVICE_SYMBOLIC_NAME.starts_with("\\DosDevices\\"));
    assert!(ALT_DEVICE_SYMBOLIC_NAME.starts_with("\\\\.\\"));
}
