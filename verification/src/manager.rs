//! The hook manager: installs a batch of hooks over their targets and
//! removes them again, pairing each specification with the memory it
//! patches.  Patching and unpatching are serialized by this manager; the
//! deployed library calls it from a dedicated thread, never under the
//! loader lock.

use vstd::prelude::*;

use crate::hotpatch::{
    spec_gateway, spec_jump, spec_overwrite_prefix, spec_patch_len, spec_syscall_id, Hook,
    PatchWidth, TargetCode, PAGE_EXECUTE_READWRITE,
};

verus! {

/// One hook specification: where the target lives and where its callers
/// should be detoured.  The manager pairs each entry with the target
/// memory the surrounding code resolved for it.
pub struct HookEntry {
    /// Name of the module containing the target function.
    pub dll: String,
    /// Exported name of the target function.
    pub func: String,
    /// Address of the detour, as a pointer-sized value.
    pub detour: u64,
}

/// Manages hook specifications and the live hooks installed from them.
pub struct HookManager {
    /// Hook specifications added so far, not yet installed.
    pub entries: Vec<HookEntry>,
    /// Live hooks, one per entry once installed.
    pub live: Vec<Hook>,
}

impl HookManager {
    /// A manager with no specifications and no live hooks.
    pub fn new() -> (r: HookManager)
        ensures
            r.entries@.len() == 0,
            r.live@.len() == 0,
    {
        HookManager { entries: Vec::new(), live: Vec::new() }
    }

    /// Add one hook specification; nothing is installed yet.
    pub fn add(&mut self, e: HookEntry)
        ensures
            final(self).entries@ == old(self).entries@.push(e),
            final(self).live@ == old(self).live@,
    {
        self.entries.push(e);
    }

    /// Install every specified hook, in the order the entries were added.
    /// `sites[i]` is the resolved target memory of `entries[i]`.  After
    /// the call each target carries the jump to its detour on an
    /// executable-writable page, and `live[i]` holds what `remove` needs.
    pub fn install_all(&mut self, sites: &mut Vec<TargetCode>, width: PatchWidth)
        requires
            old(self).live@.len() == 0,
            old(sites)@.len() == old(self).entries@.len(),
            forall|i: int| 0 <= i < old(sites)@.len() ==> (#[trigger] old(sites)@[i]).bytes@.len()
                >= 20,
        ensures
            final(self).entries@ == old(self).entries@,
            final(self).live@.len() == old(self).entries@.len(),
            final(sites)@.len() == old(sites)@.len(),
            forall|i: int| 0 <= i < old(sites)@.len() ==> {
                &&& (#[trigger] final(sites)@[i]).bytes@ == spec_overwrite_prefix(
                    old(sites)@[i].bytes@,
                    spec_jump(width, old(self).entries@[i].detour),
                )
                &&& final(sites)@[i].protection == PAGE_EXECUTE_READWRITE
            },
            forall|i: int| 0 <= i < old(sites)@.len() ==> {
                &&& (#[trigger] final(self).live@[i]).wf()
                &&& final(self).live@[i].width == width
                &&& final(self).live@[i].saved@ == old(sites)@[i].bytes@.take(spec_patch_len(width))
                &&& final(self).live@[i].gateway@ == spec_gateway(
                    width,
                    spec_syscall_id(old(sites)@[i].bytes@.take(20)),
                )
                &&& final(self).live@[i].old_protect == old(sites)@[i].protection
            },
    {
        let n: usize = self.entries.len();
        let mut i: usize = 0;
        while i < n
            invariant
                n == self.entries@.len(),
                self.entries@ == old(self).entries@,
                i <= n,
                self.live@.len() == i,
                sites@.len() == old(sites)@.len(),
                old(sites)@.len() == n,
                forall|k: int| i <= k < n ==> #[trigger] sites@[k] == old(sites)@[k],
                forall|k: int| 0 <= k < n ==> (#[trigger] old(sites)@[k]).bytes@.len() >= 20,
                forall|k: int| 0 <= k < i ==> {
                    &&& (#[trigger] sites@[k]).bytes@ == spec_overwrite_prefix(
                        old(sites)@[k].bytes@,
                        spec_jump(width, old(self).entries@[k].detour),
                    )
                    &&& sites@[k].protection == PAGE_EXECUTE_READWRITE
                },
                forall|k: int| 0 <= k < i ==> {
                    &&& (#[trigger] self.live@[k]).wf()
                    &&& self.live@[k].width == width
                    &&& self.live@[k].saved@ == old(sites)@[k].bytes@.take(spec_patch_len(width))
                    &&& self.live@[k].gateway@ == spec_gateway(
                        width,
                        spec_syscall_id(old(sites)@[k].bytes@.take(20)),
                    )
                    &&& self.live@[k].old_protect == old(sites)@[k].protection
                },
            decreases n - i,
        {
            let detour: u64 = self.entries[i].detour;
            let site = site_at(sites, i);
            let h = Hook::new(site, width, detour);
            self.live.push(h);
            i = i + 1;
        }
    }

    /// Remove every live hook, last installed first.  Afterwards each
    /// target carries its saved prologue again under its original page
    /// protection, and no live hooks remain.
    pub fn uninstall_all(&mut self, sites: &mut Vec<TargetCode>)
        requires
            old(self).live@.len() == old(sites)@.len(),
            forall|i: int| 0 <= i < old(self).live@.len() ==> (#[trigger] old(self).live@[i]).wf(),
            forall|i: int| 0 <= i < old(sites)@.len() ==> (#[trigger] old(sites)@[i]).bytes@.len()
                >= spec_patch_len(old(self).live@[i].width),
        ensures
            final(self).entries@ == old(self).entries@,
            final(self).live@.len() == 0,
            final(sites)@.len() == old(sites)@.len(),
            forall|i: int| 0 <= i < old(sites)@.len() ==> {
                &&& (#[trigger] final(sites)@[i]).bytes@ == spec_overwrite_prefix(
                    old(sites)@[i].bytes@,
                    old(self).live@[i].saved@,
                )
                &&& final(sites)@[i].protection == old(self).live@[i].old_protect
            },
    {
        let n: usize = self.live.len();
        while self.live.len() > 0
            invariant
                self.entries@ == old(self).entries@,
                n == old(self).live@.len(),
                self.live@.len() <= n,
                self.live@ == old(self).live@.take(self.live@.len() as int),
                sites@.len() == old(sites)@.len(),
                old(sites)@.len() == n,
                forall|k: int| 0 <= k < old(self).live@.len() ==> (#[trigger] old(
                    self,
                ).live@[k]).wf(),
                forall|k: int| 0 <= k < n ==> (#[trigger] old(sites)@[k]).bytes@.len()
                    >= spec_patch_len(old(self).live@[k].width),
                forall|k: int| 0 <= k < self.live@.len() ==> #[trigger] sites@[k] == old(
                    sites,
                )@[k],
                forall|k: int| self.live@.len() <= k < n ==> {
                    &&& (#[trigger] sites@[k]).bytes@ == spec_overwrite_prefix(
                        old(sites)@[k].bytes@,
                        old(self).live@[k].saved@,
                    )
                    &&& sites@[k].protection == old(self).live@[k].old_protect
                },
            decreases self.live@.len(),
        {
            let i: usize = self.live.len() - 1;
            proof {
                assert(self.live@[i as int] == old(self).live@[i as int]);
            }
            let h: Hook = self.live.pop().unwrap();
            let site = site_at(sites, i);
            h.remove(site);
            proof {
                assert(self.live@ =~= old(self).live@.take(i as int));
            }
        }
    }
}

/// A mutable borrow of the target at index `i`.
fn site_at<'a>(sites: &'a mut Vec<TargetCode>, i: usize) -> (site: &'a mut TargetCode)
    requires
        i < old(sites)@.len(),
    ensures
        *site == old(sites)@[i as int],
        final(sites)@ == old(sites)@.update(i as int, *final(site)),
{
    &mut sites[i]
}

} // verus!
