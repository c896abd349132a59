use x86_vcpu::vmcb::{
    CLEAN_BITS, CONTROL_AREA_SIZE, CR0, CR3, CR4, CS, DR6, DR7, DS, EFER, ES, EXIT_CODE,
    EXIT_INFO_1, EXIT_INFO_2, EXIT_INT_INFO, EXIT_INT_INFO_ERR, EVENT_INJ, FS, GDTR, GS,
    GUEST_ASID, G_PAT, IDTR, INSN_BYTES, INSN_LEN, INTERCEPT_CR, INTERCEPT_DR, INT_STATE,
    EVENT_INJ_ERR,
    INTERCEPT_EXCEPTIONS, INTERCEPT_VECTOR3, INTERCEPT_VECTOR4, INTERCEPT_VECTOR5, INT_CONTROL,
    IOPM_BASE_PA, LDTR, MSRPM_BASE_PA, NESTED_CR3, NESTED_CTL, NEXT_RIP, RAX, RFLAGS, RIP, RSP,
    SEG_ATTR, SEG_BASE, SEG_LIMIT, SEG_SELECTOR, SS, STATE_AREA_OFFSET, STATE_AREA_SIZE,
    TLB_CONTROL, TR, TSC_OFFSET, VMCB_SIZE,
};
use x86_vcpu::{set_vmcb_segment, HvError, SvmIntercept, Vmcb};

#[test]
fn vmcb_offsets_match_the_architecture() {
    assert_eq!(CONTROL_AREA_SIZE, 0x400);
    assert_eq!(STATE_AREA_SIZE, 0xC00);
    assert_eq!(VMCB_SIZE, 0x1000);
    assert_eq!(
        [INTERCEPT_CR, INTERCEPT_DR, INTERCEPT_EXCEPTIONS, INTERCEPT_VECTOR3, INTERCEPT_VECTOR4, INTERCEPT_VECTOR5],
        [0x00, 0x04, 0x08, 0x0C, 0x10, 0x14]
    );
    assert_eq!([IOPM_BASE_PA, MSRPM_BASE_PA, TSC_OFFSET, GUEST_ASID, TLB_CONTROL], [0x40, 0x48, 0x50, 0x58, 0x5C]);
    assert_eq!([INT_CONTROL, EXIT_CODE, EXIT_INFO_1, EXIT_INFO_2], [0x60, 0x70, 0x78, 0x80]);
    assert_eq!([EXIT_INT_INFO, EXIT_INT_INFO_ERR, NESTED_CTL, EVENT_INJ, NESTED_CR3], [0x88, 0x8C, 0x90, 0xA8, 0xB0]);
    assert_eq!([CLEAN_BITS, NEXT_RIP, INSN_LEN, INSN_BYTES], [0xC0, 0xC8, 0xD0, 0xD1]);
    let segs = [ES, CS, SS, DS, FS, GS, GDTR, LDTR, IDTR, TR];
    for (i, s) in segs.iter().enumerate() {
        assert_eq!(*s, 0x400 + 0x10 * i);
    }
    let state = [CR4, CR3, CR0, DR7, DR6, RFLAGS, RIP, RSP, RAX, EFER, G_PAT];
    let rel: Vec<usize> = state.iter().map(|o| o - STATE_AREA_OFFSET).collect();
    assert_eq!(rel, vec![0x148, 0x150, 0x158, 0x160, 0x168, 0x170, 0x178, 0x1D8, 0x1F8, 0xD0, 0x268]);
}

#[test]
fn vmcb_fields_are_little_endian() {
    let mut v = Vmcb::new();
    v.write_u64(RIP, 0x1122_3344_5566_7788);
    assert_eq!(v.read_u64(RIP), 0x1122_3344_5566_7788);
    assert_eq!(v.as_bytes()[RIP], 0x88);
    assert_eq!(v.as_bytes()[RIP + 7], 0x11);
    v.write_u32(GUEST_ASID, 0xAABB_CCDD);
    assert_eq!(v.read_u32(GUEST_ASID), 0xAABB_CCDD);
    assert_eq!(v.read_u8(GUEST_ASID), 0xDD);
    assert_eq!(v.read_u16(GUEST_ASID), 0xCCDD);
    v.clear_control();
    assert_eq!(v.read_u32(GUEST_ASID), 0);
    assert_eq!(v.read_u64(RIP), 0x1122_3344_5566_7788);
}

#[test]
fn vmcb_intercepts_and_setup() {
    let mut v = Vmcb::new();
    v.set_intercept(SvmIntercept::CPUID);
    v.set_intercept(SvmIntercept::CPUID);
    assert_eq!(v.read_u32(INTERCEPT_VECTOR3), 1 << 18);
    assert!(v.is_intercepted(SvmIntercept::CPUID));
    assert!(!v.is_intercepted(SvmIntercept::HLT));
    v.setup_vmcb_control(0x5000, 0x6000, 0x9000);
    for i in [
        SvmIntercept::NMI,
        SvmIntercept::CPUID,
        SvmIntercept::SHUTDOWN,
        SvmIntercept::VMRUN,
        SvmIntercept::VMMCALL,
        SvmIntercept::VMLOAD,
        SvmIntercept::VMSAVE,
        SvmIntercept::STGI,
        SvmIntercept::CLGI,
        SvmIntercept::SKINIT,
    ] {
        assert!(v.is_intercepted(i));
    }
    assert_eq!(v.read_u32(INTERCEPT_VECTOR4), 0x7F);
    assert_eq!(v.read_u32(INTERCEPT_EXCEPTIONS), 1 << 6);
    assert_eq!(v.read_u64(NESTED_CTL) & 1, 1);
    assert_eq!(v.read_u32(GUEST_ASID), 1);
    assert_eq!(v.read_u64(NESTED_CR3), 0x5000);
    assert_eq!(v.read_u8(TLB_CONTROL), 3);
    assert_eq!(v.read_u32(INT_CONTROL), 1 << 24);
    assert_eq!(v.read_u64(IOPM_BASE_PA), 0x6000);
    assert_eq!(v.read_u64(MSRPM_BASE_PA), 0x9000);

    v.setup_vmcb_guest(0x7c00, 0x0007_0406_0007_0406);
    assert_eq!(v.read_u64(RIP), 0x7c00);
    assert_eq!(v.read_u64(CR0), 0x6000_0010);
    assert_eq!(v.read_u64(RFLAGS), 2);
    assert_eq!(v.read_u64(DR7), 0x400);
    assert_eq!(v.read_u64(EFER), 1 << 12);
    assert_eq!(v.read_u64(G_PAT), 0x0007_0406_0007_0406);
    assert_eq!(v.read_u16(CS + SEG_ATTR), 0x9b);
    assert_eq!(v.read_u16(TR + SEG_ATTR), 0x8b);
    assert_eq!(v.read_u32(SS + SEG_LIMIT), 0xFFFF);
    // the control area is untouched by the guest half
    assert_eq!(v.read_u32(GUEST_ASID), 1);

    set_vmcb_segment(&mut v, FS, 0x33, 0x93);
    assert_eq!(v.read_u16(FS + SEG_SELECTOR), 0x33);
    assert_eq!(v.read_u64(FS + SEG_BASE), 0);
}

#[test]
fn vmcb_control_registers_and_exit_info() {
    let mut v = Vmcb::new();
    assert_eq!(v.set_cr(3, 0x1000), Ok(()));
    assert_eq!(v.cr(3), 0x1000);
    assert_eq!(v.set_cr(2, 5), Err(HvError::InvalidInput));
    v.write_u64(EXIT_CODE, 0x400);
    v.write_u64(EXIT_INFO_1, 3);
    v.write_u64(EXIT_INFO_2, 0x8000_0000);
    v.write_u64(NEXT_RIP, 0x7c05);
    let info = v.exit_info();
    assert_eq!((info.exit_code, info.exit_info_1, info.exit_info_2, info.guest_next_rip), (0x400, 3, 0x8000_0000, 0x7c05));
}

#[test]
fn vmcb_injection_and_interrupt_acceptance() {
    let mut v = Vmcb::new();
    v.inject_event(x86_vcpu::injection_word(14, true), Some(0x6));
    assert_eq!(v.read_u32(EVENT_INJ), 0x8000_0B0E);
    assert_eq!(v.read_u32(EVENT_INJ_ERR), 6);
    v.inject_event(x86_vcpu::injection_word(0x20, false), None);
    assert_eq!(v.read_u32(EVENT_INJ), 0x8000_0020);
    assert_eq!(v.read_u32(EVENT_INJ_ERR), 0);
    assert!(!v.allow_interrupt());
    v.write_u64(RFLAGS, 0x202);
    assert!(v.allow_interrupt());
    v.write_u32(INT_STATE, 1); // interrupt shadow
    assert!(!v.allow_interrupt());
}
