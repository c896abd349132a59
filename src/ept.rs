use vstd::prelude::*;

verus! {

/// What a walk of the guest's page table needs to know.
#[derive(Clone, Copy, Debug)]
pub struct GuestPageWalkInfo {
    /// The guest's page-table root (`CR3`).
    pub top_entry: usize,
    /// Number of paging levels.
    pub level: usize,
    /// Width in bits of each level's index.
    pub width: u32,
    /// Whether the access is made in user mode.
    pub is_user_mode_access: bool,
    /// Whether the access is a write.
    pub is_write_access: bool,
    /// Whether the access is an instruction fetch.
    pub is_inst_fetch: bool,
    /// `CR4.PSE` for 32-bit paging; always set for PAE and 4-level paging.
    pub pse: bool,
    /// `CR0.WP`.
    pub wp: bool,
    /// `EFER.NXE`.
    pub nxe: bool,
    /// Supervisor-mode access prevention.
    pub is_smap_on: bool,
    /// Supervisor-mode execution prevention.
    pub is_smep_on: bool,
}

} // verus!
