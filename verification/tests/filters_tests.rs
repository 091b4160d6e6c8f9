//! Tests of the ASCII-case-insensitive matching and the telemetry
//! filters.

use gladix_core::filters::{
    contains_ci, eq_ci, is_registry_noise_path, is_windows_rooted, should_emit_image_load,
    should_emit_process_create, should_emit_registry_setvalue, starts_with_ci, to_ascii_lower,
};

#[test]
fn byte_lowercase_folds_only_letters() {
    assert_eq!(to_ascii_lower(b'A'), b'a');
    assert_eq!(to_ascii_lower(b'Z'), b'z');
    assert_eq!(to_ascii_lower(b'a'), b'a');
    assert_eq!(to_ascii_lower(b'\\'), b'\\');
    assert_eq!(to_ascii_lower(b'0'), b'0');
}

#[test]
fn case_insensitive_character_equality() {
    assert!(eq_ci('a', 'A'));
    assert!(eq_ci('Z', 'z'));
    assert!(eq_ci('\\', '\\'));
    assert!(eq_ci('5', '5'));
    assert!(!eq_ci('a', 'b'));
    // Only ASCII letters fold: bracket and lowercase differ by 32 but
    // are not both letters.
    assert!(!eq_ci('[', '{'));
}

#[test]
fn starts_with_ci_cases() {
    assert!(starts_with_ci("\\SystemRoot\\System32", "\\systemroot\\"));
    assert!(starts_with_ci("abcdef", "ABC"));
    assert!(starts_with_ci("abc", "abc"));
    assert!(starts_with_ci("abc", ""));
    assert!(!starts_with_ci("ab", "abc"));
    assert!(!starts_with_ci("xabc", "abc"));
}

#[test]
fn contains_ci_cases() {
    assert!(contains_ci("C:\\Windows\\WinSxS\\x86_thing", "\\winsxs\\"));
    assert!(contains_ci("abcdef", "CDE"));
    assert!(contains_ci("abc", "abc"));
    assert!(!contains_ci("abc", "abd"));
    // The empty needle is contained in nothing.
    assert!(!contains_ci("abc", ""));
    assert!(!contains_ci("ab", "abc"));
}

#[test]
fn windows_rooted_paths() {
    assert!(is_windows_rooted("\\SystemRoot\\System32\\ntdll.dll"));
    assert!(is_windows_rooted("C:\\Windows\\explorer.exe"));
    assert!(is_windows_rooted("\\??\\C:\\WINDOWS\\system32\\cmd.exe"));
    assert!(!is_windows_rooted("D:\\Tools\\thing.exe"));
}

#[test]
fn image_load_filter_drops_noise() {
    // System process.
    assert!(!should_emit_image_load(4, "C:\\Windows\\System32\\ntdll.dll", 0x10000));
    // Session manager.
    assert!(!should_emit_image_load(100, "C:\\Windows\\System32\\smss.exe", 0x10000));
    // Tiny images.
    assert!(!should_emit_image_load(1234, "C:\\Users\\x\\small.dll", 4095));
    // High-churn system stores.
    assert!(!should_emit_image_load(1234, "C:\\Windows\\WinSxS\\x86_abc\\comctl32.dll", 0x10000));
    assert!(!should_emit_image_load(
        1234,
        "C:\\Windows\\System32\\DriverStore\\FileRepository\\nv_disp\\nvd.dll",
        0x10000
    ));
}

#[test]
fn image_load_filter_keeps_signal() {
    assert!(should_emit_image_load(1234, "C:\\Users\\x\\payload.dll", 4096));
    // Windows-rooted modules are kept: side-loading matters.
    assert!(should_emit_image_load(1234, "C:\\Windows\\System32\\kernel32.dll", 0x10000));
}

#[test]
fn registry_filter_keeps_vendor_and_persistence_keys() {
    assert!(should_emit_registry_setvalue("\\REGISTRY\\MACHINE\\SOFTWARE\\Gladix\\Config", None));
    assert!(should_emit_registry_setvalue(
        "\\REGISTRY\\MACHINE\\SOFTWARE\\Microsoft\\Windows\\CurrentVersion\\Run",
        Some("Updater")
    ));
    assert!(should_emit_registry_setvalue(
        "\\REGISTRY\\MACHINE\\SYSTEM\\CurrentControlSet\\Services\\evil",
        None
    ));
    assert!(should_emit_registry_setvalue(
        "\\REGISTRY\\MACHINE\\SOFTWARE\\Microsoft\\Windows NT\\CurrentVersion\\Image File Execution Options\\notepad.exe",
        None
    ));
    assert!(should_emit_registry_setvalue(
        "\\REGISTRY\\MACHINE\\SOFTWARE\\Microsoft\\Windows NT\\CurrentVersion\\Winlogon\\",
        None
    ));
    assert!(should_emit_registry_setvalue(
        "\\REGISTRY\\MACHINE\\SYSTEM\\CurrentControlSet\\Control\\Lsa\\Security Packages",
        None
    ));
    // Per-user autoruns match through the contains rule.
    assert!(should_emit_registry_setvalue(
        "\\REGISTRY\\USER\\S-1-5-21-x\\SOFTWARE\\Microsoft\\Windows\\CurrentVersion\\RunOnce",
        None
    ));
}

#[test]
fn registry_filter_drops_noise_and_keeps_the_rest() {
    assert!(!should_emit_registry_setvalue(
        "\\REGISTRY\\MACHINE\\SOFTWARE\\Classes\\txtfile\\shell",
        None
    ));
    assert!(!should_emit_registry_setvalue(
        "\\REGISTRY\\MACHINE\\SOFTWARE\\Microsoft\\Windows\\MuiCache\\entry",
        None
    ));
    assert!(!should_emit_registry_setvalue(
        "\\REGISTRY\\MACHINE\\SOFTWARE\\Microsoft\\Windows NT\\AppCompatFlags\\Layers",
        None
    ));
    assert!(!should_emit_registry_setvalue(
        "\\REGISTRY\\MACHINE\\SOFTWARE\\Installer\\Products\\ABCD",
        None
    ));
    // Default stance: retain.
    assert!(should_emit_registry_setvalue("\\REGISTRY\\MACHINE\\SOFTWARE\\SomeVendor\\App", None));
}

#[test]
fn registry_noise_paths() {
    assert!(is_registry_noise_path("\\REGISTRY\\MACHINE\\SOFTWARE\\Classes\\x"));
    assert!(!is_registry_noise_path("\\REGISTRY\\MACHINE\\SOFTWARE\\Vendor\\x"));
}

#[test]
fn process_filter_cases() {
    assert!(!should_emit_process_create(99, "C:\\Windows\\System32\\svchost.exe"));
    assert!(!should_emit_process_create(5000, ""));
    assert!(should_emit_process_create(100, "C:\\Windows\\System32\\svchost.exe"));
    assert!(should_emit_process_create(4242, "C:\\Users\\x\\tool.exe"));
}
