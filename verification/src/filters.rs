//! Predicates that decide which events become telemetry.
//!
//! All path matching is ASCII-case-insensitive: two characters are
//! compared by folding the letters `A`-`Z` onto their lowercase forms and
//! leaving every other character untouched.  The predicates are pure
//! functions over string slices, exactly as the callback handlers use
//! them on their hot paths.

use vstd::prelude::*;
use vstd::string::StrSliceExecFns;

verus! {

/// Code point of `c` with an ASCII capital letter folded to lowercase.
pub open spec fn spec_lower(c: char) -> int {
    if 65 <= c as u32 && c as u32 <= 90 {
        c as u32 + 32
    } else {
        c as u32 as int
    }
}

/// ASCII-case-insensitive character equality.
pub open spec fn chars_eq_ci(a: char, b: char) -> bool {
    spec_lower(a) == spec_lower(b)
}

/// `needle` matches `haystack` at offset `w`, case-insensitively.
pub open spec fn spec_match_at(h: Seq<char>, n: Seq<char>, w: int) -> bool {
    forall|i: int| 0 <= i < n.len() ==> chars_eq_ci(h[w + i], #[trigger] n[i])
}

/// `h` starts with `p`, ASCII-case-insensitively.
pub open spec fn spec_starts_with_ci(h: Seq<char>, p: Seq<char>) -> bool {
    p.len() <= h.len() && spec_match_at(h, p, 0)
}

/// `h` contains the non-empty `n`, ASCII-case-insensitively.
pub open spec fn spec_contains_ci(h: Seq<char>, n: Seq<char>) -> bool {
    0 < n.len() <= h.len() && exists|w: int|
        0 <= w <= h.len() - n.len() && #[trigger] spec_match_at(h, n, w)
}

/// ASCII lowercase for a single byte: capital letters fold, every other
/// byte passes through.
pub fn to_ascii_lower(b: u8) -> (r: u8)
    ensures
        65 <= b <= 90 ==> r == b + 32,
        !(65 <= b <= 90) ==> r == b,
{
    if b >= 65 && b <= 90 {
        b + 32
    } else {
        b
    }
}

/// ASCII-case-insensitive equality of two characters.
pub fn eq_ci(a: char, b: char) -> (r: bool)
    ensures
        r == chars_eq_ci(a, b),
{
    let av: u32 = a as u32;
    let bv: u32 = b as u32;
    let la: u32 = if av >= 65 && av <= 90 {
        av + 32
    } else {
        av
    };
    let lb: u32 = if bv >= 65 && bv <= 90 {
        bv + 32
    } else {
        bv
    };
    la == lb
}

/// `needle` matches `haystack` at offset `w`, case-insensitively.
fn match_at(haystack: &str, needle: &str, w: usize) -> (r: bool)
    requires
        w + needle@.len() <= haystack@.len(),
        haystack@.len() <= usize::MAX,
    ensures
        r == spec_match_at(haystack@, needle@, w as int),
{
    let m: usize = needle.unicode_len();
    let mut i: usize = 0;
    while i < m
        invariant
            i <= m,
            m == needle@.len(),
            w + m <= haystack@.len(),
            haystack@.len() <= usize::MAX,
            forall|k: int| 0 <= k < i ==> chars_eq_ci(haystack@[w + k], #[trigger] needle@[k]),
        decreases m - i,
    {
        let hc = haystack.get_char(w + i);
        let nc = needle.get_char(i);
        if !eq_ci(hc, nc) {
            assert(!chars_eq_ci(haystack@[w + i as int], needle@[i as int]));
            return false;
        }
        i = i + 1;
    }
    true
}

/// Return true if `haystack` starts with `prefix`, ASCII-case-insensitively.
pub fn starts_with_ci(haystack: &str, prefix: &str) -> (r: bool)
    ensures
        r == spec_starts_with_ci(haystack@, prefix@),
{
    let hl: usize = haystack.unicode_len();
    let pl: usize = prefix.unicode_len();
    if pl > hl {
        return false;
    }
    match_at(haystack, prefix, 0)
}

/// Return true if `haystack` contains `needle`, ASCII-case-insensitively.
/// The empty needle is contained in nothing.
pub fn contains_ci(haystack: &str, needle: &str) -> (r: bool)
    ensures
        r == spec_contains_ci(haystack@, needle@),
{
    let hl: usize = haystack.unicode_len();
    let m: usize = needle.unicode_len();
    if m == 0 || m > hl {
        return false;
    }
    let mut w: usize = 0;
    while w <= hl - m
        invariant
            0 < m <= hl,
            m == needle@.len(),
            hl == haystack@.len(),
            w <= hl - m + 1,
            forall|x: int| 0 <= x < w ==> !#[trigger] spec_match_at(haystack@, needle@, x),
        decreases hl - m + 1 - w,
    {
        if match_at(haystack, needle, w) {
            assert(spec_match_at(haystack@, needle@, w as int));
            return true;
        }
        w = w + 1;
    }
    false
}

/// A path rooted under the Windows directory, in NT or DOS form: either
/// it starts with `\SystemRoot\` or it contains `:\Windows\`.
pub fn is_windows_rooted(path: &str) -> (r: bool)
    ensures
        r == (spec_starts_with_ci(path@, "\\systemroot\\"@) || spec_contains_ci(
            path@,
            ":\\windows\\"@,
        )),
{
    starts_with_ci(path, "\\systemroot\\") || contains_ci(path, ":\\windows\\")
}

/// Whether an image-load event is worth emitting.
pub open spec fn spec_should_emit_image_load(
    pid: u32,
    path: Seq<char>,
    image_size: u32,
) -> bool {
    &&& pid != 4
    &&& !spec_contains_ci(path, "\\system32\\smss.exe"@)
    &&& !spec_contains_ci(path, "\\smss.exe"@)
    &&& image_size >= 4096
    &&& !spec_contains_ci(path, "\\winsxs\\"@)
    &&& !spec_contains_ci(path, "\\system32\\driverstore\\filerepository\\"@)
}

/// Decide whether to emit an image-load event.
///
/// Drops the System process (PID 4) and the session manager, images under
/// four kibibytes, and the high-churn WinSxS and DriverStore trees; keeps
/// everything else, including Windows-rooted modules.
pub fn should_emit_image_load(pid: u32, full_image_path: &str, image_size: u32) -> (r: bool)
    ensures
        r == spec_should_emit_image_load(pid, full_image_path@, image_size),
{
    if pid == 4 {
        return false;
    }
    if contains_ci(full_image_path, "\\system32\\smss.exe") || contains_ci(
        full_image_path,
        "\\smss.exe",
    ) {
        return false;
    }
    if image_size < 4096 {
        return false;
    }
    if contains_ci(full_image_path, "\\winsxs\\") {
        return false;
    }
    if contains_ci(full_image_path, "\\system32\\driverstore\\filerepository\\") {
        return false;
    }
    true
}

/// Registry areas that are noise for detection purposes.
pub open spec fn spec_is_registry_noise_path(k: Seq<char>) -> bool {
    ||| spec_contains_ci(k, "\\classes\\"@)
    ||| spec_contains_ci(k, "\\muicache\\"@)
    ||| spec_contains_ci(k, "\\appcompatflags\\"@)
    ||| spec_contains_ci(k, "\\installer\\products\\"@)
}

/// Noisy registry areas that are dropped when nothing else retains them.
pub fn is_registry_noise_path(path_nt: &str) -> (r: bool)
    ensures
        r == spec_is_registry_noise_path(path_nt@),
{
    contains_ci(path_nt, "\\classes\\") || contains_ci(path_nt, "\\muicache\\") || contains_ci(
        path_nt,
        "\\appcompatflags\\",
    ) || contains_ci(path_nt, "\\installer\\products\\")
}

/// The registry prefixes commonly abused for persistence or security
/// control, in NT form, whose writes are always kept.
pub open spec fn spec_hits_sensitive_prefix(k: Seq<char>) -> bool {
    ||| spec_starts_with_ci(
        k,
        "\\registry\\machine\\software\\microsoft\\windows\\currentversion\\run"@,
    )
    ||| spec_starts_with_ci(
        k,
        "\\registry\\machine\\software\\microsoft\\windows\\currentversion\\runonce"@,
    )
    ||| spec_starts_with_ci(k, "\\registry\\user\\"@)
    ||| spec_starts_with_ci(k, "\\registry\\machine\\system\\currentcontrolset\\services\\"@)
    ||| spec_starts_with_ci(
        k,
        "\\registry\\machine\\software\\microsoft\\windows nt\\currentversion\\image file execution options\\"@,
    )
    ||| spec_starts_with_ci(
        k,
        "\\registry\\machine\\software\\microsoft\\windows nt\\currentversion\\windows\\"@,
    )
    ||| spec_starts_with_ci(
        k,
        "\\registry\\machine\\software\\microsoft\\windows nt\\currentversion\\winlogon\\"@,
    )
    ||| spec_starts_with_ci(k, "\\registry\\machine\\system\\currentcontrolset\\control\\lsa\\"@)
    ||| spec_starts_with_ci(
        k,
        "\\registry\\machine\\software\\microsoft\\windows nt\\currentversion\\schedule\\taskcache\\"@,
    )
}

/// Whether a registry set-value event is worth emitting.
pub open spec fn spec_should_emit_registry_setvalue(k: Seq<char>) -> bool {
    if spec_starts_with_ci(k, "\\registry\\machine\\software\\gladix\\"@) {
        true
    } else if spec_hits_sensitive_prefix(k) {
        true
    } else if spec_contains_ci(k, "\\currentversion\\run"@) || spec_contains_ci(
        k,
        "\\currentversion\\runonce"@,
    ) {
        true
    } else if spec_is_registry_noise_path(k) {
        false
    } else {
        true
    }
}

/// Decide whether to emit a registry set-value event.
///
/// Keeps writes under the vendor configuration subtree, the well-known
/// persistence prefixes and the per-user autorun keys; drops the noisy
/// areas; retains everything else.  The value name is reserved for future
/// value-level rules and does not influence the decision yet.
pub fn should_emit_registry_setvalue(key_path_nt: &str, _value_name: Option<&str>) -> (r: bool)
    ensures
        r == spec_should_emit_registry_setvalue(key_path_nt@),
{
    if starts_with_ci(key_path_nt, "\\registry\\machine\\software\\gladix\\") {
        return true;
    }
    if starts_with_ci(
        key_path_nt,
        "\\registry\\machine\\software\\microsoft\\windows\\currentversion\\run",
    ) || starts_with_ci(
        key_path_nt,
        "\\registry\\machine\\software\\microsoft\\windows\\currentversion\\runonce",
    ) || starts_with_ci(key_path_nt, "\\registry\\user\\") || starts_with_ci(
        key_path_nt,
        "\\registry\\machine\\system\\currentcontrolset\\services\\",
    ) || starts_with_ci(
        key_path_nt,
        "\\registry\\machine\\software\\microsoft\\windows nt\\currentversion\\image file execution options\\",
    ) || starts_with_ci(
        key_path_nt,
        "\\registry\\machine\\software\\microsoft\\windows nt\\currentversion\\windows\\",
    ) || starts_with_ci(
        key_path_nt,
        "\\registry\\machine\\software\\microsoft\\windows nt\\currentversion\\winlogon\\",
    ) || starts_with_ci(
        key_path_nt,
        "\\registry\\machine\\system\\currentcontrolset\\control\\lsa\\",
    ) || starts_with_ci(
        key_path_nt,
        "\\registry\\machine\\software\\microsoft\\windows nt\\currentversion\\schedule\\taskcache\\",
    ) {
        return true;
    }
    if contains_ci(key_path_nt, "\\currentversion\\run") || contains_ci(
        key_path_nt,
        "\\currentversion\\runonce",
    ) {
        return true;
    }
    if is_registry_noise_path(key_path_nt) {
        return false;
    }
    true
}

/// Whether a process-creation event is worth emitting.
pub open spec fn spec_should_emit_process_create(pid: u32, image_path: Seq<char>) -> bool {
    pid >= 100 && image_path.len() > 0
}

/// Decide whether to emit a process-creation event: drop the very low
/// PIDs of early boot services and processes with an empty image path,
/// keep everything else.
pub fn should_emit_process_create(pid: u32, image_path: &str) -> (r: bool)
    ensures
        r == spec_should_emit_process_create(pid, image_path@),
{
    if pid < 100 {
        return false;
    }
    if image_path.unicode_len() == 0 {
        return false;
    }
    true
}

} // verus!
