use x86_vcpu::{
    check_xcr0, cpuid_result, cr_access_info, cr_is_valid, cr_write, handle_cr, handle_cpuid, handle_xsetbv, set_control,
    CpuIdResult, GeneralRegisters, HvError, XState, XStateLoad, enable_xsave,
};

#[test]
fn cpuid_feature_leaf_is_shaped() {
    let mut regs = GeneralRegisters::default();
    regs.rax = 1;
    regs.rcx = 0;
    regs.r8 = 7;
    let raw = CpuIdResult { eax: 0x0009_06EA, ebx: 0x1234, ecx: 0x7FFA_FBFF, edx: 0xBFEB_FBFF };
    let len = handle_cpuid(&mut regs, raw);
    assert_eq!(len, 2);
    assert_eq!(regs.rax, (0x0009_06EA & !(1 << 7)) as u64);
    assert_eq!(regs.rcx & (1 << 5), 0);
    assert_ne!(regs.rcx & (1 << 31), 0);
    assert_eq!(regs.rcx, ((0x7FFA_FBFFu32 & !(1 << 5)) | (1 << 31)) as u64);
    assert_eq!(regs.rbx, 0x1234);
    assert_eq!(regs.rdx, 0xBFEB_FBFF);
    assert_eq!(regs.r8, 7);
}

#[test]
fn cpuid_hypervisor_leaf_reports_vendor() {
    let mut regs = GeneralRegisters::default();
    regs.rax = 0x4000_0000;
    let raw = CpuIdResult { eax: 1, ebx: 2, ecx: 3, edx: 4 };
    assert_eq!(handle_cpuid(&mut regs, raw), 2);
    assert_eq!(regs.rax, 0x4000_0001);
    let mut vendor = Vec::new();
    vendor.extend_from_slice(&(regs.rbx as u32).to_le_bytes());
    vendor.extend_from_slice(&(regs.rcx as u32).to_le_bytes());
    vendor.extend_from_slice(&(regs.rdx as u32).to_le_bytes());
    assert_eq!(&vendor, b"RVMRVMRVMRVM");
    assert_eq!(regs.rbx, 0x524D_5652);
}

#[test]
fn cpuid_other_leaves() {
    let raw = CpuIdResult { eax: 0, ebx: 5, ecx: 0xFFFF_FFFF, edx: 6 };
    assert_eq!(cpuid_result(0x4000_0001, 0, raw), CpuIdResult { eax: 0, ebx: 0, ecx: 0, edx: 0 });
    assert_eq!(cpuid_result(0x16, 0, raw).eax, 3000);
    assert_eq!(cpuid_result(0x16, 0, CpuIdResult { eax: 2400, ..raw }).eax, 2400);
    assert_eq!(cpuid_result(7, 0, raw).ecx, 0xFFFF_FFFF & !(1 << 5) & !(1 << 16));
    assert_eq!(cpuid_result(7, 1, raw), raw);
    assert_eq!(cpuid_result(0xd, 0, raw), raw);
}

#[test]
fn xcr0_rules() {
    assert_eq!(check_xcr0(0x1), Some(0x1));
    assert_eq!(check_xcr0(0x7), Some(0x7));
    assert_eq!(check_xcr0(0xE7), Some(0xE7));
    assert_eq!(check_xcr0(0x2), None); // x87 missing
    assert_eq!(check_xcr0(0x5), None); // AVX without SSE
    assert_eq!(check_xcr0(0xB), None); // BNDREG without BNDCSR
    assert_eq!(check_xcr0(0x67), None); // AVX-512 incomplete
    assert_eq!(check_xcr0(0xE3), None); // AVX-512 without AVX
    assert_eq!(check_xcr0(0x401), None); // unknown component
}

#[test]
fn xsetbv_loads_guest_xcr0() {
    let mut xs = XState::new(true, true, 0x7, 0);
    let mut regs = GeneralRegisters::default();
    regs.rcx = 0;
    regs.rax = 0x3;
    regs.rdx = 0;
    assert_eq!(handle_xsetbv(&regs, &mut xs), Ok(3));
    assert_eq!(xs.guest_xcr0, 0x3);
    assert_eq!(xs.host_xcr0, 0x7);
    regs.rax = 0x2;
    assert_eq!(handle_xsetbv(&regs, &mut xs), Err(HvError::InvalidInput));
    assert_eq!(xs.guest_xcr0, 0x3);
    regs.rcx = 1;
    assert_eq!(handle_xsetbv(&regs, &mut xs), Err(HvError::Unsupported));
}

#[test]
fn cr_writes_respect_fixed_bits() {
    let fixed0 = 0x8000_0021u64; // PG, NE, PE
    let fixed1 = 0xFFFF_FFFFu64;
    let w = cr_write(0, 0x6000_0010, fixed0, fixed1);
    assert_eq!(w.read_shadow, 0x6000_0010);
    // NW and CD dropped, NE forced, PE and PG left to the guest
    assert_eq!(w.value, 0x10 | 0x20);
    assert_eq!(w.guest_host_mask, 0x20 | !(fixed1 & !0x6000_0000));
    let w4 = cr_write(4, 0x20, 0x2000, 0x3F_FFFF);
    assert_eq!(w4.read_shadow, 0x2020);
    assert_eq!(w4.value, 0x2020);
    assert!(cr_is_valid(0x8000_0031, fixed0, fixed1));
    assert!(!cr_is_valid(0x31, fixed0, fixed1));
    assert!(!cr_is_valid(0x1_8000_0021, fixed0, fixed1));
}

#[test]
fn control_capabilities() {
    // allowed-0 = 0x16, allowed-1 = 0xFF
    let cap = (0xFFu64 << 32) | 0x16;
    assert_eq!(set_control(cap, 0x80, 0x8, 0x1), Ok(0x16 | 0x80 | 0x8));
    assert_eq!(set_control(cap, 0, 0x100, 0), Err(HvError::InvalidVmcsConfig));
    assert_eq!(set_control(cap, 0, 0, 0x2), Err(HvError::InvalidVmcsConfig));
    assert_eq!(set_control(cap, 0, 0x8, 0x8), Err(HvError::InvalidVmcsConfig));
}

#[test]
fn cr_access_exits() {
    let info = cr_access_info((3 << 8) | (1 << 4) | 4);
    assert_eq!((info.cr_number, info.access_type, info.gpr), (4, 1, 3));

    let mut regs = GeneralRegisters::default();
    regs.rbx = 0x8000_0031;
    // MOV CR0, RBX with LME set: LMA follows
    let plan = handle_cr(&regs, 3 << 8, 0, 1 << 8, 0x21, 0xFFFF_FFFF).unwrap();
    assert_eq!(plan.cr, 0);
    assert_eq!(plan.advance, 3);
    assert_eq!(plan.write.read_shadow, 0x8000_0031);
    assert_eq!(plan.efer, Some((1 << 8) | (1 << 10)));
    // MOV CR4, RSP takes the guest stack pointer
    let plan4 = handle_cr(&regs, (4 << 8) | 4, 0x20, 0, 0, 0x3F_FFFF).unwrap();
    assert_eq!(plan4.write.read_shadow, 0x2020);
    assert_eq!(plan4.efer, None);
    // MOV from CR3 and moves to CR3 are not handled
    assert_eq!(handle_cr(&regs, (1 << 4) | 3, 0, 0, 0, 0), None);
    assert_eq!(handle_cr(&regs, 3, 0, 0, 0, 0), None);
}

#[test]
fn xstate_switches_sides() {
    let mut xs = XState::new(true, true, 0x7, 0x100);
    xs.guest_xcr0 = 0x3;
    xs.guest_xss = 0;
    assert_eq!(xs.switch_to_guest(0x7, 0x100), XStateLoad { xcr0: Some(0x3), xss: Some(0) });
    assert_eq!(xs.switch_to_host(0x3, 0), XStateLoad { xcr0: Some(0x7), xss: Some(0x100) });
    let mut plain = XState::new(false, true, 0x7, 0x100);
    assert_eq!((plain.host_xcr0, plain.host_xss, plain.xsaves_available), (0, 0, false));
    assert_eq!(plain.switch_to_guest(1, 1), XStateLoad { xcr0: None, xss: None });
    let mut no_xss = XState::new(true, false, 0x7, 0x100);
    assert_eq!(no_xss.host_xss, 0);
    assert_eq!(no_xss.switch_to_guest(0x7, 5), XStateLoad { xcr0: Some(0x7), xss: None });
    assert_eq!(enable_xsave(0x20, true), 0x20 | (1 << 18));
    assert_eq!(enable_xsave(0x20, false), 0x20);
}
