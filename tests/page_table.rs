use x86_vcpu::{
    p1_index, p2_index, p3_index, p4_index, p5_index, GuestPageTable64, GuestPageWalkInfo, HvError,
    WalkStep,
};

#[test]
fn level_indices() {
    let v: usize = (3 << 48) | (5 << 39) | (7 << 30) | (9 << 21) | (11 << 12) | 0x123;
    assert_eq!(p5_index(v), 3);
    assert_eq!(p4_index(v), 5);
    assert_eq!(p3_index(v), 7);
    assert_eq!(p2_index(v), 9);
    assert_eq!(p1_index(v), 11);
    assert_eq!(GuestPageTable64::index_at(4, v as u64), 5);
    assert_eq!(GuestPageTable64::index_at(1, v as u64), 11);
}

#[test]
fn walk_steps() {
    let info = GuestPageWalkInfo {
        top_entry: 0x1234_5FFF,
        level: 4,
        width: 9,
        is_user_mode_access: false,
        is_write_access: false,
        is_inst_fetch: false,
        pse: true,
        wp: true,
        nxe: true,
        is_smap_on: false,
        is_smep_on: false,
    };
    let pt = GuestPageTable64::construct(&info);
    assert_eq!(pt.root_paddr(), 0x1234_5000);
    assert_eq!(pt.levels(), 4);

    assert_eq!(GuestPageTable64::walk_step(4, 0x2003, 0), WalkStep::Next { table: 0x2000 });
    assert_eq!(GuestPageTable64::walk_step(4, 0x2002, 0), WalkStep::Fault { err: HvError::NotMapped });
    assert_eq!(GuestPageTable64::walk_step(4, 0x2083, 0), WalkStep::Fault { err: HvError::MappedToHugePage });
    // a 2 MiB page
    assert_eq!(
        GuestPageTable64::walk_step(2, 0x4000_0083, 0x1234),
        WalkStep::Mapped { paddr: 0x4000_1234, flags: 0x3, size: 0x20_0000 }
    );
    // a 4 KiB page, no-execute, dirty
    let entry = (1u64 << 63) | 0x7000 | 0x43;
    assert_eq!(
        GuestPageTable64::walk_step(1, entry, 0xABC),
        WalkStep::Mapped { paddr: 0x7ABC, flags: (1u64 << 63) | 0x43, size: 0x1000 }
    );
    assert_eq!(GuestPageTable64::walk_step(1, 0, 0), WalkStep::Fault { err: HvError::NotMapped });
}

#[test]
fn guest_reads_split_at_page_ends() {
    assert_eq!(x86_vcpu::read_chunk(0x1FF0, 0x40, 0x1000), 0x10);
    assert_eq!(x86_vcpu::read_chunk(0x2000, 0x40, 0x1000), 0x40);
    assert_eq!(x86_vcpu::read_chunk(0x2000, 0x2000, 0x1000), 0x1000);
    assert_eq!(x86_vcpu::read_chunk(0x20_0010, 0x30_0000, 0x20_0000), 0x1F_FFF0);
    assert_eq!(x86_vcpu::read_chunk(0x10, 0, 0x1000), 0);
}
