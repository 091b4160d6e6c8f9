//! The scan cache: remembers each file's last seen modification time and
//! size, so unchanged files are not scanned again.
//!
//! The cache is bounded: entries are kept in insertion order and the
//! oldest is evicted once the bound is exceeded.  Updating a known path
//! overwrites its stamp in place, keeping its position.

use vstd::prelude::*;
use vstd::string::StrSliceExecFns;

verus! {

/// Maximum number of distinct files remembered.
pub const MAX_ENTRIES: usize = 10000;

/// One remembered file: its path and its `(modification time, size)`
/// stamp.
pub struct CacheEntry {
    /// Path of the file.
    pub path: String,
    /// Modification time, in whole seconds.
    pub mtime: u64,
    /// Length of the file in bytes.
    pub size: u64,
}

/// A bounded cache of file stamps in insertion order.
pub struct ScanCache {
    /// The remembered files, oldest first.
    pub entries: Vec<CacheEntry>,
}

/// The stamp remembered for `path`, scanning from the front.
pub open spec fn spec_find(entries: Seq<CacheEntry>, path: Seq<char>) -> Option<(u64, u64)>
    decreases entries.len(),
{
    if entries.len() == 0 {
        None
    } else if entries[0].path@ == path {
        Some((entries[0].mtime, entries[0].size))
    } else {
        spec_find(entries.drop_first(), path)
    }
}

/// Character-for-character equality of two string slices.
fn str_eq(a: &str, b: &str) -> (r: bool)
    ensures
        r == (a@ == b@),
{
    let al: usize = a.unicode_len();
    let bl: usize = b.unicode_len();
    if al != bl {
        return false;
    }
    let mut i: usize = 0;
    while i < al
        invariant
            i <= al,
            al == a@.len(),
            al == b@.len(),
            forall|k: int| 0 <= k < i ==> a@[k] == b@[k],
        decreases al - i,
    {
        if a.get_char(i) != b.get_char(i) {
            return false;
        }
        i = i + 1;
    }
    proof {
        assert(a@ =~= b@);
    }
    true
}

impl ScanCache {
    /// Paths are unique, so each file has one stamp, and the cache never
    /// exceeds its bound.
    pub open spec fn wf(&self) -> bool {
        &&& forall|i: int, j: int|
            0 <= i < j < self.entries@.len() ==> (#[trigger] self.entries@[i]).path@ != (
            #[trigger] self.entries@[j]).path@
        &&& self.entries@.len() <= MAX_ENTRIES
    }

    /// An empty cache.
    pub fn new() -> (r: ScanCache)
        ensures
            r.wf(),
            r.entries@.len() == 0,
    {
        ScanCache { entries: Vec::new() }
    }

    /// True when `path` is known and its remembered stamp equals the
    /// current `(mtime, size)`.
    pub fn is_unchanged(&self, path: &str, mtime: u64, size: u64) -> (r: bool)
        requires
            self.wf(),
        ensures
            r == (spec_find(self.entries@, path@) == Some((mtime, size))),
    {
        let mut i: usize = 0;
        proof {
            assert(self.entries@.skip(0) =~= self.entries@);
        }
        while i < self.entries.len()
            invariant
                i <= self.entries@.len(),
                spec_find(self.entries@, path@) == spec_find(
                    self.entries@.skip(i as int),
                    path@,
                ),
            decreases self.entries@.len() - i,
        {
            proof {
                assert(self.entries@.skip(i as int).drop_first() =~= self.entries@.skip(
                    i as int + 1,
                ));
            }
            if str_eq(self.entries[i].path.as_str(), path) {
                return self.entries[i].mtime == mtime && self.entries[i].size == size;
            }
            i = i + 1;
        }
        false
    }

    /// Record or refresh the stamp for `path`.  A known path keeps its
    /// position and gets the new stamp; a new path is appended, and when
    /// the bound would be exceeded the oldest entry is evicted.
    pub fn update(&mut self, path: &str, mtime: u64, size: u64)
        requires
            old(self).wf(),
        ensures
            final(self).wf(),
            spec_find(final(self).entries@, path@) == Some((mtime, size)),
    {
        let n: usize = self.entries.len();
        let mut i: usize = 0;
        while i < n
            invariant
                self.wf(),
                *self == *old(self),
                n == self.entries@.len(),
                i <= n,
                forall|k: int| 0 <= k < i ==> (#[trigger] self.entries@[k]).path@ != path@,
            decreases n - i,
        {
            if str_eq(self.entries[i].path.as_str(), path) {
                let stamped = CacheEntry {
                    path: String::from_str(path),
                    mtime,
                    size,
                };
                self.entries[i] = stamped;
                proof {
                    lemma_find_at(self.entries@, path@, i as int);
                }
                return ;
            }
            i = i + 1;
        }
        if self.entries.len() >= MAX_ENTRIES {
            let _oldest = self.entries.remove(0);
        }
        let stamped = CacheEntry { path: String::from_str(path), mtime, size };
        self.entries.push(stamped);
        proof {
            let e = self.entries@;
            assert forall|a: int, b: int| 0 <= a < b < e.len() implies (#[trigger] e[a]).path@ != (
            #[trigger] e[b]).path@ by {
                if b == e.len() - 1 {
                    if old(self).entries@.len() >= MAX_ENTRIES {
                        assert(e[a] == old(self).entries@[a + 1]);
                    } else {
                        assert(e[a] == old(self).entries@[a]);
                    }
                }
            }
            lemma_find_at(e, path@, e.len() - 1);
        }
    }
}

/// When index `i` holds `path` and no earlier entry does, the lookup
/// returns entry `i`'s stamp.
proof fn lemma_find_at(entries: Seq<CacheEntry>, path: Seq<char>, i: int)
    requires
        0 <= i < entries.len(),
        entries[i].path@ == path,
        forall|k: int| 0 <= k < i ==> (#[trigger] entries[k]).path@ != path,
    ensures
        spec_find(entries, path) == Some((entries[i].mtime, entries[i].size)),
    decreases i,
{
    if i > 0 {
        assert(entries.drop_first()[i - 1] == entries[i]);
        assert forall|k: int| 0 <= k < i - 1 implies (#[trigger] entries.drop_first()[k]).path@
            != path by {
            assert(entries.drop_first()[k] == entries[k + 1]);
        }
        lemma_find_at(entries.drop_first(), path, i - 1);
    }
}

} // verus!
