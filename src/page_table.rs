//! Reading the guest's page table: the index of each level, and what each entry met
//! on the way decides. Fetching the entries themselves goes through the second-level
//! page table that maps guest-physical addresses, outside this module.
use vstd::prelude::*;

use crate::ept::GuestPageWalkInfo;
use crate::error::HvError;

verus! {

/// Entries of a 64-bit page table.
pub const ENTRY_COUNT: usize = 512;

/// The address bits of an entry or of `CR3` (bits 12 to 51).
pub const PHYS_ADDR_MASK: u64 = 0x000f_ffff_ffff_f000;

/// Entry flag: present.
pub const PTE_PRESENT: u64 = 1 << 0;

/// Entry flag: writable.
pub const PTE_WRITABLE: u64 = 1 << 1;

/// Entry flag: user accessible.
pub const PTE_USER: u64 = 1 << 2;

/// Entry flag: accessed.
pub const PTE_ACCESSED: u64 = 1 << 5;

/// Entry flag: dirty.
pub const PTE_DIRTY: u64 = 1 << 6;

/// Entry flag: maps a huge page.
pub const PTE_HUGE: u64 = 1 << 7;

/// Entry flag: no execute.
pub const PTE_NO_EXECUTE: u64 = 1 << 63;

/// The flags a walk reports: present, writable, user, no-execute, accessed, dirty.
pub const PTE_REPORTED_FLAGS: u64 = PTE_PRESENT | PTE_WRITABLE | PTE_USER | PTE_ACCESSED | PTE_DIRTY
    | PTE_NO_EXECUTE;

/// Size of a page mapped at level 1.
pub const SIZE_4K: u64 = 0x1000;

/// Size of a page mapped at level 2.
pub const SIZE_2M: u64 = 0x20_0000;

/// Size of a page mapped at level 3.
pub const SIZE_1G: u64 = 0x4000_0000;

/// Index into the level-5 table.
pub fn p5_index(vaddr: usize) -> (r: usize)
    ensures
        r as u64 == ((vaddr as u64) >> 48u64) & 0x1ff,
{
    let v = vaddr as u64;
    assert((v >> 48u64) & 0x1ff <= 0x1ff) by (bit_vector);
    ((v >> 48u64) & 0x1ff) as usize
}

/// Index into the level-4 table.
pub fn p4_index(vaddr: usize) -> (r: usize)
    ensures
        r as u64 == ((vaddr as u64) >> 39u64) & 0x1ff,
{
    let v = vaddr as u64;
    assert((v >> 39u64) & 0x1ff <= 0x1ff) by (bit_vector);
    ((v >> 39u64) & 0x1ff) as usize
}

/// Index into the level-3 table.
pub fn p3_index(vaddr: usize) -> (r: usize)
    ensures
        r as u64 == ((vaddr as u64) >> 30u64) & 0x1ff,
{
    let v = vaddr as u64;
    assert((v >> 30u64) & 0x1ff <= 0x1ff) by (bit_vector);
    ((v >> 30u64) & 0x1ff) as usize
}

/// Index into the level-2 table.
pub fn p2_index(vaddr: usize) -> (r: usize)
    ensures
        r as u64 == ((vaddr as u64) >> 21u64) & 0x1ff,
{
    let v = vaddr as u64;
    assert((v >> 21u64) & 0x1ff <= 0x1ff) by (bit_vector);
    ((v >> 21u64) & 0x1ff) as usize
}

/// Index into the level-1 table.
pub fn p1_index(vaddr: usize) -> (r: usize)
    ensures
        r as u64 == ((vaddr as u64) >> 12u64) & 0x1ff,
{
    let v = vaddr as u64;
    assert((v >> 12u64) & 0x1ff <= 0x1ff) by (bit_vector);
    ((v >> 12u64) & 0x1ff) as usize
}

/// Bytes that one entry of the table at `level` spans.
pub open spec fn level_unit(level: usize) -> int {
    if level == 1 {
        0x1000
    } else if level == 2 {
        0x20_0000
    } else if level == 3 {
        0x4000_0000
    } else if level == 4 {
        0x80_0000_0000
    } else {
        0x1_0000_0000_0000
    }
}

/// What an entry met during a walk decides.
#[derive(Clone, Copy, Debug, PartialEq, Eq, Structural)]
pub enum WalkStep {
    /// Go on in the table at this guest-physical address, one level down.
    Next { table: u64 },
    /// The address maps to `paddr` in a page of `size` bytes, with these flags.
    Mapped { paddr: u64, flags: u64, size: u64 },
    /// The walk fails.
    Fault { err: HvError },
}

/// Size of the page that a huge entry at `level` (2 or 3) maps.
pub open spec fn huge_size(level: usize) -> u64 {
    if level == 3 {
        SIZE_1G
    } else {
        SIZE_2M
    }
}

/// What `entry`, met at `level` while walking for `vaddr`, decides: above level 3
/// a table must follow; at levels 3 and 2 a huge entry maps a page; at level 1 any
/// used entry maps a 4 KiB page.
pub open spec fn walk_step_spec(level: usize, entry: u64, vaddr: u64) -> WalkStep {
    let present = entry & PTE_PRESENT != 0;
    let huge = entry & PTE_HUGE != 0;
    let addr = entry & PHYS_ADDR_MASK;
    let flags = entry & PTE_REPORTED_FLAGS;
    if level >= 4 {
        if !present {
            WalkStep::Fault { err: HvError::NotMapped }
        } else if huge {
            WalkStep::Fault { err: HvError::MappedToHugePage }
        } else {
            WalkStep::Next { table: addr }
        }
    } else if level >= 2 {
        if huge {
            WalkStep::Mapped {
                paddr: (addr + vaddr % huge_size(level)) as u64,
                flags,
                size: huge_size(level),
            }
        } else if !present {
            WalkStep::Fault { err: HvError::NotMapped }
        } else {
            WalkStep::Next { table: addr }
        }
    } else if entry == 0 {
        WalkStep::Fault { err: HvError::NotMapped }
    } else {
        WalkStep::Mapped { paddr: (addr + vaddr % SIZE_4K) as u64, flags, size: SIZE_4K }
    }
}

/// A guest page table, walked from its root.
#[derive(Clone, Copy, Debug, PartialEq, Eq, Structural)]
pub struct GuestPageTable64 {
    root_paddr: u64,
    levels: usize,
}

impl GuestPageTable64 {
    /// Guest-physical address of the root table.
    pub closed spec fn root_spec(&self) -> u64 {
        self.root_paddr
    }

    /// Number of levels.
    pub closed spec fn levels_spec(&self) -> usize {
        self.levels
    }

    /// The table that the walk information describes: its root from the address
    /// bits of `CR3`, and its number of levels.
    pub fn construct(info: &GuestPageWalkInfo) -> (r: Self)
        ensures
            r.root_spec() == (info.top_entry as u64) & PHYS_ADDR_MASK,
            r.levels_spec() == info.level,
    {
        GuestPageTable64 { root_paddr: (info.top_entry as u64) & PHYS_ADDR_MASK, levels: info.level }
    }

    /// Guest-physical address of the root table.
    pub fn root_paddr(&self) -> (r: u64)
        ensures
            r == self.root_spec(),
    {
        self.root_paddr
    }

    /// Number of levels.
    pub fn levels(&self) -> (r: usize)
        ensures
            r == self.levels_spec(),
    {
        self.levels
    }

    /// Index, in the table at `level`, of the entry that maps `vaddr`.
    pub fn index_at(level: usize, vaddr: u64) -> (r: usize)
        requires
            1 <= level <= 5,
        ensures
            r == (vaddr as int / level_unit(level)) % 512,
            r < ENTRY_COUNT,
    {
        let unit: u64 = match level {
            1 => 0x1000,
            2 => 0x20_0000,
            3 => 0x4000_0000,
            4 => 0x80_0000_0000,
            _ => 0x1_0000_0000_0000,
        };
        ((vaddr / unit) % 512) as usize
    }

    /// Decides what `entry`, met at `level` while walking for `vaddr`, means.
    pub fn walk_step(level: usize, entry: u64, vaddr: u64) -> (r: WalkStep)
        requires
            1 <= level <= 5,
        ensures
            r == walk_step_spec(level, entry, vaddr),
    {
        let present = entry & PTE_PRESENT != 0;
        let huge = entry & PTE_HUGE != 0;
        let addr = entry & PHYS_ADDR_MASK;
        let flags = entry & PTE_REPORTED_FLAGS;
        assert(entry & 0x000f_ffff_ffff_f000u64 <= 0x000f_ffff_ffff_f000u64) by (bit_vector);
        if level >= 4 {
            if !present {
                WalkStep::Fault { err: HvError::NotMapped }
            } else if huge {
                WalkStep::Fault { err: HvError::MappedToHugePage }
            } else {
                WalkStep::Next { table: addr }
            }
        } else if level >= 2 {
            let size = if level == 3 {
                SIZE_1G
            } else {
                SIZE_2M
            };
            if huge {
                WalkStep::Mapped { paddr: addr + vaddr % size, flags, size }
            } else if !present {
                WalkStep::Fault { err: HvError::NotMapped }
            } else {
                WalkStep::Next { table: addr }
            }
        } else if entry == 0 {
            WalkStep::Fault { err: HvError::NotMapped }
        } else {
            WalkStep::Mapped { paddr: addr + vaddr % SIZE_4K, flags, size: SIZE_4K }
        }
    }
}

/// How many of the `remaining` bytes to read from `addr` inside its page of
/// `page_size` bytes: up to the end of the page, and no more than asked.
pub fn read_chunk(addr: u64, remaining: usize, page_size: u64) -> (r: usize)
    requires
        page_size > 0,
    ensures
        r as int == if page_size - addr % page_size < remaining {
            page_size - addr % page_size
        } else {
            remaining as int
        },
        r > 0 <==> remaining > 0,
{
    let left_in_page = page_size - addr % page_size;
    if left_in_page < remaining as u64 {
        left_in_page as usize
    } else {
        remaining
    }
}

} // verus!
