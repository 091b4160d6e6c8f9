//! The in-process hot-patch engine for syscall stubs.
//!
//! Installing a hook saves the target's prologue, reads the syscall
//! number out of the stub, synthesizes a small gateway that performs the
//! original kernel transition, and overwrites the prologue with a jump to
//! the detour.  Removing it copies the saved prologue back and restores
//! the page protection recorded at install time.  The byte templates, the
//! syscall-number scan and the prologue bookkeeping are modeled and proved
//! here; resolving the target address, allocating executable memory,
//! changing page protection and flushing the instruction cache are
//! operating-system work that surrounds these functions.

use vstd::prelude::*;

use crate::bytes::{spec_le_u32, spec_u32_le, spec_u64_le, u32_from_le_bytes, u32_to_le_vec,
    u64_to_le_vec};

verus! {

/// Page protection value for an executable, writable page.
pub const PAGE_EXECUTE_READWRITE: u32 = 0x40;

/// Pointer width of the patched process: it decides the lengths and
/// shapes of the patch and the gateway.
#[derive(Clone, Copy, PartialEq, Eq, Structural, Debug)]
pub enum PatchWidth {
    /// 64-bit process: 13-byte patch, 11-byte gateway.
    W64,
    /// 32-bit process: 7-byte patch, 8-byte gateway.
    W32,
}

/// Number of prologue bytes the patch overwrites.
pub open spec fn spec_patch_len(w: PatchWidth) -> int {
    match w {
        PatchWidth::W64 => 13,
        PatchWidth::W32 => 7,
    }
}

/// Number of bytes in the synthesized gateway: the length of the byte
/// template below (`mov r10, rcx; mov eax, id; syscall; ret` on 64-bit,
/// `mov eax, id; int 2Eh; ret` on 32-bit).
pub open spec fn spec_gateway_len(w: PatchWidth) -> int {
    match w {
        PatchWidth::W64 => 11,
        PatchWidth::W32 => 8,
    }
}

/// Number of prologue bytes the patch overwrites.
pub fn patch_len(w: PatchWidth) -> (r: usize)
    ensures
        r == spec_patch_len(w),
{
    match w {
        PatchWidth::W64 => 13,
        PatchWidth::W32 => 7,
    }
}

/// The gateway bytes for syscall number `id`: a clean stub that loads the
/// number and performs the kernel transition, then returns.
pub open spec fn spec_gateway(w: PatchWidth, id: u32) -> Seq<u8> {
    match w {
        PatchWidth::W64 => seq![0x4Cu8, 0x8B, 0xD1, 0xB8].add(spec_u32_le(id)).add(
            seq![0x0Fu8, 0x05, 0xC3],
        ),
        PatchWidth::W32 => seq![0xB8u8].add(spec_u32_le(id)).add(seq![0xCDu8, 0x2E, 0xC3]),
    }
}

/// The jump written over the target's prologue, transferring control to
/// `detour` (of which a 32-bit process uses the low half).
pub open spec fn spec_jump(w: PatchWidth, detour: u64) -> Seq<u8> {
    match w {
        PatchWidth::W64 => seq![0x49u8, 0xBA].add(spec_u64_le(detour)).add(
            seq![0x41u8, 0xFF, 0xE2],
        ),
        PatchWidth::W32 => seq![0xB8u8].add(spec_u32_le(detour as u32)).add(seq![0xFFu8, 0xE0]),
    }
}

/// The jump template is exactly as long as the patch it fills.
pub proof fn lemma_jump_len(w: PatchWidth, detour: u64)
    ensures
        spec_jump(w, detour).len() == spec_patch_len(w),
{
}

/// The syscall number found scanning `s` from position `i`: the 32-bit
/// immediate of the first `mov eax, imm32` opcode (`0xB8`), or zero when
/// the pattern does not occur.
pub open spec fn spec_syscall_id_from(s: Seq<u8>, i: int) -> u32
    decreases s.len() - i,
        when 0 <= i <= s.len()
{
    if i + 5 > s.len() {
        0u32
    } else if s[i] == 0xB8 {
        spec_le_u32(s.subrange(i + 1, i + 5))
    } else {
        spec_syscall_id_from(s, i + 1)
    }
}

/// The syscall number encoded in a stub, or zero when no `0xB8` pattern
/// is found.
pub open spec fn spec_syscall_id(s: Seq<u8>) -> u32 {
    spec_syscall_id_from(s, 0)
}

/// Scan a stub for `mov eax, imm32` (opcode `0xB8`) and return the
/// 32-bit immediate as the syscall number; zero when the pattern is
/// absent.  The caller passes the prologue bytes it wants scanned.
pub fn extract_syscall_id(stub: &[u8]) -> (r: u32)
    ensures
        r == spec_syscall_id(stub@),
{
    let n: usize = stub.len();
    if n < 5 {
        return 0;
    }
    let mut i: usize = 0;
    while i <= n - 5
        invariant
            5 <= n,
            i <= n,
            n == stub@.len(),
            spec_syscall_id(stub@) == spec_syscall_id_from(stub@, i as int),
        decreases n - i,
    {
        if stub[i] == 0xB8 {
            let r = u32_from_le_bytes(stub[i + 1], stub[i + 2], stub[i + 3], stub[i + 4]);
            proof {
                assert(seq![stub@[i + 1], stub@[i + 2], stub@[i + 3], stub@[i + 4]] =~= stub
                    @.subrange(i + 1, i + 5));
            }
            return r;
        }
        i = i + 1;
    }
    0
}

/// The memory being patched: the leading bytes of the target function and
/// the protection of its page.
pub struct TargetCode {
    /// The first bytes of the target function (at least the scanned
    /// window of twenty bytes).
    pub bytes: Vec<u8>,
    /// Current page protection of the target.
    pub protection: u32,
}

/// A sequence with its first `patch.len()` bytes replaced by `patch`.
pub open spec fn spec_overwrite_prefix(b: Seq<u8>, patch: Seq<u8>) -> Seq<u8> {
    patch.add(b.skip(patch.len() as int))
}

/// An installed hook: everything needed to call the original syscall and
/// to undo the patch.
pub struct Hook {
    /// Pointer width the hook was built for.
    pub width: PatchWidth,
    /// The prologue bytes overwritten by the jump, for restoration.
    pub saved: Vec<u8>,
    /// The synthesized gateway stub with the original syscall sequence.
    pub gateway: Vec<u8>,
    /// Page protection of the target before the patch.
    pub old_protect: u32,
}

impl Hook {
    /// The saved prologue is exactly one patch long.
    pub open spec fn wf(&self) -> bool {
        self.saved@.len() == spec_patch_len(self.width)
    }

    /// Build the gateway stub for syscall number `id`.
    pub fn make_gateway(w: PatchWidth, id: u32) -> (r: Vec<u8>)
        ensures
            r@ == spec_gateway(w, id),
            r@.len() == spec_gateway_len(w),
    {
        let mut r: Vec<u8> = Vec::new();
        match w {
            PatchWidth::W64 => {
                r.push(0x4C);
                r.push(0x8B);
                r.push(0xD1);
                r.push(0xB8);
                let id_le = u32_to_le_vec(id);
                r.push(id_le[0]);
                r.push(id_le[1]);
                r.push(id_le[2]);
                r.push(id_le[3]);
                r.push(0x0F);
                r.push(0x05);
                r.push(0xC3);
            },
            PatchWidth::W32 => {
                r.push(0xB8);
                let id_le = u32_to_le_vec(id);
                r.push(id_le[0]);
                r.push(id_le[1]);
                r.push(id_le[2]);
                r.push(id_le[3]);
                r.push(0xCD);
                r.push(0x2E);
                r.push(0xC3);
            },
        }
        proof {
            assert(r@ =~= spec_gateway(w, id));
            match w {
                PatchWidth::W64 => {
                    assert(spec_gateway(w, id).len() == 11);
                },
                PatchWidth::W32 => {
                    assert(spec_gateway(w, id).len() == 8);
                },
            }
        }
        r
    }

    /// Build the jump that sends the target's callers to `detour`.
    pub fn jump_bytes(w: PatchWidth, detour: u64) -> (r: Vec<u8>)
        ensures
            r@ == spec_jump(w, detour),
            r@.len() == spec_patch_len(w),
    {
        let mut r: Vec<u8> = Vec::new();
        match w {
            PatchWidth::W64 => {
                r.push(0x49);
                r.push(0xBA);
                let d = u64_to_le_vec(detour);
                let mut k: usize = 0;
                while k < 8
                    invariant
                        k <= 8,
                        d@ == spec_u64_le(detour),
                        r@ =~= seq![0x49u8, 0xBA].add(spec_u64_le(detour).take(k as int)),
                    decreases 8 - k,
                {
                    r.push(d[k]);
                    k = k + 1;
                }
                r.push(0x41);
                r.push(0xFF);
                r.push(0xE2);
            },
            PatchWidth::W32 => {
                r.push(0xB8);
                let d = u32_to_le_vec(detour as u32);
                r.push(d[0]);
                r.push(d[1]);
                r.push(d[2]);
                r.push(d[3]);
                r.push(0xFF);
                r.push(0xE0);
            },
        }
        proof {
            assert(r@ =~= spec_jump(w, detour));
            match w {
                PatchWidth::W64 => {
                    assert(spec_jump(w, detour).len() == 13);
                },
                PatchWidth::W32 => {
                    assert(spec_jump(w, detour).len() == 7);
                },
            }
        }
        r
    }

    /// Install a hook over `site`, sending callers to `detour`.
    ///
    /// Saves the prologue, reads the syscall number from the first twenty
    /// bytes (zero when the `0xB8` pattern is absent - the gateway still
    /// assembles), synthesizes the gateway, makes the page writable and
    /// writes the jump.  The page deliberately stays executable-writable
    /// for the lifetime of the patch; the prior protection is recorded
    /// and used only by `remove`.
    pub fn new(site: &mut TargetCode, width: PatchWidth, detour: u64) -> (h: Hook)
        requires
            old(site).bytes@.len() >= 20,
        ensures
            h.wf(),
            h.width == width,
            h.saved@ == old(site).bytes@.take(spec_patch_len(width)),
            h.gateway@ == spec_gateway(width, spec_syscall_id(old(site).bytes@.take(20))),
            h.old_protect == old(site).protection,
            final(site).bytes@ == spec_overwrite_prefix(
                old(site).bytes@,
                spec_jump(width, detour),
            ),
            final(site).bytes@.len() == old(site).bytes@.len(),
            final(site).protection == PAGE_EXECUTE_READWRITE,
    {
        let l: usize = patch_len(width);
        let saved: Vec<u8> = copy_prefix(&site.bytes, l);
        let window: Vec<u8> = copy_prefix(&site.bytes, 20);
        let id: u32 = extract_syscall_id(window.as_slice());
        let gateway: Vec<u8> = Hook::make_gateway(width, id);
        let old_protect: u32 = site.protection;
        site.protection = PAGE_EXECUTE_READWRITE;
        let jump: Vec<u8> = Hook::jump_bytes(width, detour);
        write_prefix(&mut site.bytes, &jump);
        Hook { width, saved, gateway, old_protect }
    }

    /// Undo the patch: copy the saved prologue back over the jump and
    /// restore the page protection recorded at install time.  Afterwards
    /// the first patch-length bytes of the target equal `saved`, byte for
    /// byte, and the rest of the target is untouched.
    pub fn remove(&self, site: &mut TargetCode)
        requires
            self.wf(),
            old(site).bytes@.len() >= spec_patch_len(self.width),
        ensures
            final(site).bytes@ == spec_overwrite_prefix(old(site).bytes@, self.saved@),
            final(site).bytes@.take(spec_patch_len(self.width)) == self.saved@,
            final(site).bytes@.skip(spec_patch_len(self.width)) == old(site).bytes@.skip(
                spec_patch_len(self.width),
            ),
            final(site).bytes@.len() == old(site).bytes@.len(),
            final(site).protection == self.old_protect,
    {
        write_prefix(&mut site.bytes, &self.saved);
        site.protection = self.old_protect;
        proof {
            assert(site.bytes@.take(spec_patch_len(self.width)) =~= self.saved@);
            assert(site.bytes@.skip(spec_patch_len(self.width)) =~= old(site).bytes@.skip(
                spec_patch_len(self.width),
            ));
        }
    }

    /// The gateway stub: a detour casts these executable bytes to the
    /// original function's signature to reach the real syscall.
    pub fn gateway(&self) -> (r: &Vec<u8>)
        ensures
            r@ == self.gateway@,
    {
        &self.gateway
    }
}

/// Install-then-remove is a no-op: removing a hook built from a target's
/// own prologue restores that target exactly - the bytes because the
/// saved prologue goes back over the jump, the protection because
/// `remove` restores what `new` recorded.
pub proof fn lemma_install_remove_roundtrip(bytes: Seq<u8>, width: PatchWidth, detour: u64)
    requires
        bytes.len() >= 20,
    ensures
        ({
            let l = spec_patch_len(width);
            let patched = spec_overwrite_prefix(bytes, spec_jump(width, detour));
            spec_overwrite_prefix(patched, bytes.take(l)) == bytes
        }),
{
    let l = spec_patch_len(width);
    lemma_jump_len(width, detour);
    let patched = spec_overwrite_prefix(bytes, spec_jump(width, detour));
    assert(patched.skip(l) =~= bytes.skip(l));
    assert(bytes.take(l).add(bytes.skip(l)) =~= bytes);
}

/// The first `n` bytes of `v` as an owned vector.
fn copy_prefix(v: &Vec<u8>, n: usize) -> (r: Vec<u8>)
    requires
        n <= v@.len(),
    ensures
        r@ == v@.take(n as int),
{
    let mut r: Vec<u8> = Vec::new();
    let mut i: usize = 0;
    while i < n
        invariant
            i <= n,
            n <= v@.len(),
            r@ =~= v@.take(i as int),
        decreases n - i,
    {
        r.push(v[i]);
        proof {
            assert(r@ =~= v@.take(i as int + 1));
        }
        i = i + 1;
    }
    r
}

/// Overwrite the first `patch.len()` bytes of `v` with `patch`.
fn write_prefix(v: &mut Vec<u8>, patch: &Vec<u8>)
    requires
        patch@.len() <= old(v)@.len(),
    ensures
        final(v)@ == spec_overwrite_prefix(old(v)@, patch@),
        final(v)@.len() == old(v)@.len(),
{
    let n: usize = patch.len();
    let mut i: usize = 0;
    while i < n
        invariant
            i <= n,
            n == patch@.len(),
            n <= v@.len(),
            v@.len() == old(v)@.len(),
            forall|k: int| 0 <= k < i ==> v@[k] == patch@[k],
            forall|k: int| i <= k < v@.len() ==> v@[k] == old(v)@[k],
        decreases n - i,
    {
        v[i] = patch[i];
        i = i + 1;
    }
    proof {
        assert(v@ =~= spec_overwrite_prefix(old(v)@, patch@));
    }
}

} // verus!
