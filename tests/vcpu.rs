use x86_vcpu::{
    get_cpu_mode, get_pagetable_walk_info, get_tr_base, load_vmcs_guest, read_vmcs_revision_id,
    regs_of_context, setup_vmcs_control, setup_vmcs_guest_from_ctx, DescriptorTablePointer,
    GeneralRegistersDiff, HostFeatures, HvError, Injection, LinuxContext, Segment, VmCpuMode,
    VmLoadSaveStates, VmxControlCaps, VmxVcpu, XState, SvmEnablePlan, SvmPerCpuState,
    segment_from_descriptor, tss_descriptor_available,
};

fn host_context() -> LinuxContext {
    let mut ctx = LinuxContext::construct_guest64(0xffff_8000_0010_0000, 0x0123_4000);
    ctx.rsp = 0xffff_8000_0020_0000;
    ctx.es = Segment { selector: 0x18, base: 0, limit: 0xffff_ffff, access_rights: 0xC093 };
    ctx.fs.base = 0x7000_0000;
    ctx.gdt = DescriptorTablePointer { limit: 0x7f, base: 0xffff_8000_0000_1000 };
    ctx.idt = DescriptorTablePointer { limit: 0xfff, base: 0xffff_8000_0000_2000 };
    ctx.cr4 |= 1 << 13;
    ctx.rbx = 11;
    ctx.r15 = 15;
    ctx
}

#[test]
fn adopted_host_context_comes_back_unchanged() {
    let ctx = host_context();
    // fixed bits that the context already satisfies
    let gs = setup_vmcs_guest_from_ctx(&ctx, 0x8000_0021, 0xffff_ffff, 0x2000, 0x3f_ffff);
    assert_eq!(gs.cr0.value, ctx.cr0);
    assert_eq!(gs.cr4.value, ctx.cr4);
    assert_eq!(gs.ldtr.access_rights, 1 << 16);
    assert_eq!(gs.rflags, 2);
    assert_eq!(gs.link_ptr, u64::MAX);
    let regs = regs_of_context(&ctx);
    let mut back = ctx;
    back.rbx = 0;
    back.gdt.limit = 0;
    load_vmcs_guest(&gs, &regs, &mut back);
    assert_eq!(back, ctx);
    assert_eq!(back.gdt.limit, 0x7f);
    assert_eq!(back.idt.limit, 0xfff);
    assert_eq!(back.cs.selector, 8);
}

#[test]
fn construct_guest64_values() {
    let ctx = LinuxContext::construct_guest64(0x1000, 0x2000);
    assert_eq!(ctx.cs.access_rights, 0xA09B);
    assert_eq!(ctx.ss.access_rights, 0xC093);
    assert_eq!(ctx.tss.access_rights, 0x8B);
    assert_eq!(ctx.cr0, 0x8005_0033);
    assert_eq!(ctx.efer, 0xD01);
    assert_eq!(ctx.ds, Segment::invalid());
    assert_eq!(LinuxContext::default().cs, Segment::invalid());
}

#[test]
fn vcpu_setup_needs_configuration() {
    let mut v = VmxVcpu::new(0, XState::new(true, false, 3, 0));
    assert_eq!(v.setup(), Err(HvError::InvalidInput));
    v.set_ept_root(0x8000).unwrap();
    assert_eq!(v.setup(), Err(HvError::InvalidInput));
    v.set_entry(0x7c00).unwrap();
    assert_eq!(v.setup(), Ok((0x8000, 0x7c00)));
    assert!(v.io_bitmap().is_intercepted(0x604));
    assert!(!v.io_bitmap().is_intercepted(0x605));

    let mut w = VmxVcpu::new(1, XState::new(true, false, 3, 0));
    assert_eq!(w.setup_from_context(&host_context()), Err(HvError::InvalidInput));
    w.set_ept_root(0x9000).unwrap();
    assert_eq!(w.setup_from_context(&host_context()), Ok(0x9000));
    assert_eq!(w.regs().rbx, 11);
    assert_eq!(w.regs().r15, 15);
}

#[test]
fn vcpu_defers_blocked_interrupt() {
    let mut v = VmxVcpu::new(0, XState::new(true, false, 3, 0));
    // first entry launches
    let first = v.prepare_entry(false);
    assert!(first.launch);
    assert_eq!(first.injection, Injection::Nothing);
    v.queue_event(0x20, None);
    // IF clear: window opens, vector stays
    let second = v.prepare_entry(x86_vcpu::allow_interrupt(0x2, 0));
    assert!(!second.launch);
    assert_eq!(second.injection, Injection::OpenWindow);
    assert_eq!(v.pending_event_count(), 1);
    // IF set: injected with the valid bit, queue empty
    let third = v.prepare_entry(x86_vcpu::allow_interrupt(0x202, 0));
    assert_eq!(third.injection, Injection::Inject { info: 0x8000_0020, error_code: None });
    assert_eq!(v.pending_event_count(), 0);
    v.unbind();
    assert!(!v.launched());
    assert!(v.prepare_entry(true).launch);
}

#[test]
fn vcpu_registers_and_intercepts() {
    let mut v = VmxVcpu::new(2, XState::new(true, false, 3, 0));
    assert_eq!(v.id(), 2);
    v.set_gpr(3, 0x33);
    assert_eq!(v.read_gpr(3), 0x33);
    assert_eq!(v.regs().rbx, 0x33);
    v.set_return_value(7);
    assert_eq!(v.return_value(), 7);
    v.set_frame_pointer(0x100);
    assert_eq!(v.frame_pointer(), 0x100);
    v.set_io_intercept_of_range(0x60, 5, true);
    assert!(v.io_bitmap().is_intercepted(0x64));
    v.set_msr_intercept_of_range(0xe1, true);
    assert_eq!(v.msr_bitmap().as_bytes()[0xe1 / 8], 1 << (0xe1 % 8));
    v.set_gpr(0, 0);
    v.set_gpr(2, 0);
    v.set_gpr(1, 0);
    let mut raw = x86_vcpu::CpuIdResult { eax: 0, ebx: 0, ecx: 0, edx: 0 };
    raw.ecx = 0x20;
    v.set_gpr(0, 1);
    assert_eq!(v.handle_cpuid(raw), 2);
    assert_eq!(v.regs().rcx, 0x8000_0000);
    v.set_gpr(0, 0x7);
    v.set_gpr(1, 0);
    v.set_gpr(2, 0);
    assert_eq!(v.handle_xsetbv(), Ok(3));
    assert_eq!(v.xstate().guest_xcr0, 0x7);
}

#[test]
fn control_plan_and_guest_mode() {
    // every control may be anything, nothing is fixed to 1
    let free = 0xFFFF_FFFF_0000_0000u64;
    let caps = VmxControlCaps {
        true_pinbased: free,
        pinbased: 0,
        true_procbased: free,
        procbased: 0,
        procbased2: free,
        true_exit: free,
        exit: 0,
        true_entry: free,
        entry: 0,
    };
    let f = HostFeatures { rdtscp: true, invpcid: false, waitpkg: false, xsaves: false };
    let c = setup_vmcs_control(&caps, f, true).unwrap();
    assert_eq!(c.pinbased, 1 << 3);
    assert_eq!(c.primary, (1 << 25) | (1 << 28) | (1 << 31));
    assert_eq!(c.secondary, (1 << 1) | (1 << 3) | (1 << 7) | (1 << 13));
    assert_eq!(c.exit, (1 << 9) | (1 << 15) | (1 << 18) | (1 << 19) | (1 << 20) | (1 << 21));
    assert_eq!(c.entry, (1 << 9) | (1 << 14) | (1 << 15));
    assert_eq!(c.exception_bitmap, 1 << 6);
    // a fresh guest does not enter in IA-32e mode, even where the default sets it
    let ia32e_default = VmxControlCaps { entry: 1 << 9, ..caps };
    let fresh = setup_vmcs_control(&ia32e_default, f, false).unwrap();
    assert_eq!(fresh.entry, (1 << 14) | (1 << 15));
    // IA-32e mode fixed to 1: a fresh guest cannot be set up
    let ia32e_fixed = VmxControlCaps { true_entry: free | (1 << 9), ..caps };
    assert_eq!(setup_vmcs_control(&ia32e_fixed, f, false), Err(HvError::InvalidVmcsConfig));
    let no_ept = VmxControlCaps { procbased2: 0xFFFF_FFFD_0000_0000, ..caps };
    assert_eq!(setup_vmcs_control(&no_ept, f, false), Err(HvError::InvalidVmcsConfig));

    assert_eq!(get_cpu_mode(1 << 10, 0x2000, 1), VmCpuMode::Mode64);
    assert_eq!(get_cpu_mode(1 << 10, 0, 1), VmCpuMode::Compatibility);
    assert_eq!(get_cpu_mode(0, 0, 1), VmCpuMode::Protected);
    assert_eq!(get_cpu_mode(0, 0, 0), VmCpuMode::Real);

    let info = get_pagetable_walk_info(0x1000, 0x8001_0001, 0x20, (1 << 10) | (1 << 11), 0x60);
    assert_eq!((info.level, info.width), (4, 9));
    assert!(info.is_user_mode_access && info.wp && info.nxe && info.pse);
    let info32 = get_pagetable_walk_info(0x1000, 0x8000_0001, 0x10, 1 << 11, 0);
    assert_eq!((info32.level, info32.width), (2, 10));
    assert!(info32.pse && !info32.nxe);
    assert_eq!(read_vmcs_revision_id((1 << 55) | 0x8000_0004), 4);
}

#[test]
fn task_register_base_from_gdt() {
    // present TSS descriptor at index 2: base 0xFFFF_8000_1234_5678
    let low = (0x5678u64 << 16) | (0x34u64 << 32) | (1u64 << 47) | (0x12u64 << 56) | 0x67;
    let high = 0xFFFF_8000u64;
    let gdt = [0, 0, low, high];
    assert_eq!(get_tr_base(0x10, &gdt), 0xFFFF_8000_1234_5678);
    assert_eq!(get_tr_base(0x10, &[0, 0, low & !(1u64 << 47), high]), 0);
}

#[test]
fn register_diffs_and_saved_host_state() {
    let mut a = x86_vcpu::GeneralRegisters::default();
    let b = a;
    assert!(GeneralRegistersDiff::new(a, b).is_same());
    a.r9 = 1;
    assert!(!GeneralRegistersDiff::new(a, b).is_same());

    let hw = VmLoadSaveStates { fs_base: 1, gs_base: 2, star: 3, tr: 0x40, ..Default::default() };
    let saved = VmLoadSaveStates::new_from_hardware(&hw);
    assert_eq!(saved, hw);
    let mut s = VmLoadSaveStates::default();
    s.save_syscall(1, 2, 3, 4);
    assert_eq!((s.star, s.lstar, s.cstar, s.sfmask), (1, 2, 3, 4));
    s.save_fs_gs(5, 6, 7);
    assert_eq!(s.load_all().kernel_gs_base, 7);
}

#[test]
fn fresh_guest_state_and_helpers() {
    let gs = x86_vcpu::setup_vmcs_guest(0x7c00, 0x0007_0406_0007_0406, 0, u64::MAX, 0x2000, u64::MAX);
    assert_eq!(gs.rip, 0x7c00);
    assert_eq!(gs.cr0.read_shadow, 0x6000_0010);
    assert_eq!(gs.cr4.value, 0x2000);
    assert_eq!(gs.cs.access_rights, 0x9b);
    assert_eq!(gs.ds.access_rights, 0x93);
    assert_eq!(gs.tr.access_rights, 0x8b);
    assert_eq!(gs.ldtr.access_rights, 0x82);
    assert_eq!(gs.ss.limit, 0xffff);
    assert_eq!((gs.rflags, gs.dr7, gs.link_ptr), (2, 0x400, u64::MAX));
    assert_eq!(gs.preemption_timer, 1_000_000);
    assert_eq!(gs.pat, 0x0007_0406_0007_0406);

    assert_eq!(x86_vcpu::interrupt_window_control(0x8000_0000, true), 0x8000_0004);
    assert_eq!(x86_vcpu::interrupt_window_control(0x8000_0004, false), 0x8000_0000);
    assert_eq!(x86_vcpu::gva_to_linear_addr(0x10, VmCpuMode::Mode64, 0x1000), 0x10);
    assert_eq!(x86_vcpu::gva_to_linear_addr(0x10, VmCpuMode::Real, 0xF0000), 0xF0010);
    assert_eq!(x86_vcpu::gva_to_linear_addr(u64::MAX, VmCpuMode::Protected, 2), 1);
}

#[test]
fn svm_enable_decisions() {
    let mut s = SvmPerCpuState::new(0).unwrap();
    assert_eq!(s.hardware_enable(false, 0x500, 0x1000), Err(HvError::Unsupported));
    assert_eq!(s.hardware_enable(true, 0x1500, 0x1000), Err(HvError::AlreadyEnabled));
    assert_eq!(s.hsave_pa, None);
    assert_eq!(
        s.hardware_enable(true, 0x500, 0x1000),
        Ok(SvmEnablePlan { hsave_pa: 0x1000, efer: 0x1500 })
    );
    assert_eq!(s.hsave_pa, Some(0x1000));
    assert!(s.is_enabled(0x1500));
    assert_eq!(s.hardware_disable(0x500), Err(HvError::NotEnabled));
    assert_eq!(s.hardware_disable(0x1500), Ok(0x500));
    assert_eq!(s.hsave_pa, None);
}

#[test]
fn descriptors_of_the_host_gdt() {
    // flat 64-bit kernel code: limit 0xFFFFF in pages, access 0x9B, flags L|G
    let code = 0x00AF_9B00_0000_FFFFu64;
    let s = segment_from_descriptor(0x10, code);
    assert_eq!(s, Segment { selector: 0x10, base: 0, limit: 0xFFFF_FFFF, access_rights: 0xA09B });
    // data with base 0x1234_5678, byte granular limit 0x1000
    let data = 0x1200_9334_5678_1000u64;
    let d = segment_from_descriptor(0x18, data);
    assert_eq!((d.base, d.limit, d.access_rights), (0x1234_5678, 0x1000, 0x93));
    assert_eq!(segment_from_descriptor(0, code).access_rights, 1 << 16);
    // busy 64-bit TSS (type 0xB) becomes available (type 0x9)
    let busy = 0x0000_8B00_0000_0067u64;
    assert_eq!(tss_descriptor_available(busy), 0x0000_8900_0000_0067);
}
