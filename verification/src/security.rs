//! The security policy of the named shared section, and the layout of
//! the single allocation that carries it.
//!
//! The section must be mappable read/write by a medium-integrity user
//! process while lower-integrity processes cannot write up: the
//! discretionary list grants map-read and map-write to the Everyone
//! principal, and the mandatory label puts the object at medium
//! integrity with the no-write-up policy.  Building the operating
//! system's descriptor structures happens outside; the policy values and
//! the arithmetic that lays the descriptor, both lists and their entries
//! out in one contiguous allocation are decided and proved here.

use vstd::prelude::*;

verus! {

/// Right to map the section for reading.
pub const SECTION_MAP_WRITE: u32 = 0x2;

/// Right to map the section for writing.
pub const SECTION_MAP_READ: u32 = 0x4;

/// Mapping rights required by the ring consumer: map-read and
/// map-write, nothing more.
pub const SECTION_RW_MASK: u32 = 0x6;

/// Label policy forbidding lower-integrity writers.
pub const MANDATORY_LABEL_NO_WRITE_UP: u32 = 0x1;

/// Relative identifier of the medium integrity level.
pub const MEDIUM_INTEGRITY_RID: u32 = 0x2000;

/// The combined mask grants exactly map-read and map-write.
pub proof fn lemma_rw_mask()
    ensures
        SECTION_RW_MASK == SECTION_MAP_READ | SECTION_MAP_WRITE,
{
    assert(0x4u32 | 0x2u32 == 0x6u32) by (bit_vector);
}

/// The section's security policy: what the discretionary list grants to
/// the Everyone principal and how the mandatory label restricts
/// lower-integrity callers.
pub struct SecurityDescriptor {
    /// Access granted to the Everyone principal.
    pub everyone_access: u32,
    /// Integrity level of the mandatory label.
    pub label_rid: u32,
    /// Policy bits of the mandatory label.
    pub label_policy: u32,
}

impl SecurityDescriptor {
    /// The policy applied to the shared section: Everyone may map for
    /// read and write, the object is labeled at medium integrity, and
    /// lower-integrity processes cannot write up.
    pub fn for_everyone() -> (r: SecurityDescriptor)
        ensures
            r.everyone_access == SECTION_RW_MASK,
            r.label_rid == MEDIUM_INTEGRITY_RID,
            r.label_policy == MANDATORY_LABEL_NO_WRITE_UP,
    {
        SecurityDescriptor {
            everyone_access: SECTION_RW_MASK,
            label_rid: MEDIUM_INTEGRITY_RID,
            label_policy: MANDATORY_LABEL_NO_WRITE_UP,
        }
    }
}

/// Offsets and total size of the descriptor allocation: the descriptor
/// structure first, then the discretionary list with its access-allowed
/// entry, then the mandatory-label list with its entry.  An entry is its
/// header plus the principal's identifier, which replaces the header's
/// four-byte placeholder.
pub struct DescriptorLayout {
    /// Offset of the discretionary list.
    pub dacl_offset: usize,
    /// Offset of the mandatory-label list.
    pub sacl_offset: usize,
    /// Total bytes of the allocation.
    pub total: usize,
}

/// Lay the descriptor, the discretionary list (one access-allowed entry
/// for a principal of `world_sid_len` bytes) and the label list (one
/// entry for a principal of `label_sid_len` bytes) out in one
/// allocation.  `sd_size`, `acl_size`, `allowed_ace_size` and
/// `label_ace_size` are the operating system's structure sizes.
pub fn descriptor_layout(
    sd_size: usize,
    acl_size: usize,
    allowed_ace_size: usize,
    label_ace_size: usize,
    world_sid_len: usize,
    label_sid_len: usize,
) -> (r: DescriptorLayout)
    requires
        4 <= allowed_ace_size <= 0x1000,
        4 <= label_ace_size <= 0x1000,
        sd_size <= 0x1000,
        acl_size <= 0x1000,
        world_sid_len <= 0x1000,
        label_sid_len <= 0x1000,
    ensures
        r.dacl_offset == sd_size,
        r.sacl_offset == sd_size + acl_size + (allowed_ace_size + world_sid_len - 4),
        r.total == r.sacl_offset + acl_size + (label_ace_size + label_sid_len - 4),
{
    let dacl_len: usize = acl_size + (allowed_ace_size + world_sid_len - 4);
    let sacl_len: usize = acl_size + (label_ace_size + label_sid_len - 4);
    let dacl_offset: usize = sd_size;
    let sacl_offset: usize = sd_size + dacl_len;
    let total: usize = sacl_offset + sacl_len;
    DescriptorLayout { dacl_offset, sacl_offset, total }
}

} // verus!
