//! The state of a host operating system that the hypervisor adopts as its first guest
//! (type-1.5 start), and its passage into and out of the guest-state area.
use vstd::prelude::*;

use crate::handlers::{cr0_write_spec, cr4_write_spec, cr_write, CrWrite};
use crate::regs::GeneralRegisters;

verus! {

/// Access rights: accessed.
pub const AR_ACCESSED: u32 = 1 << 0;

/// Access rights: writable (data) or readable (code).
pub const AR_WRITABLE: u32 = 1 << 1;

/// Access rights: executable.
pub const AR_EXECUTABLE: u32 = 1 << 3;

/// Access rights: code or data segment.
pub const AR_CODE_DATA: u32 = 1 << 4;

/// Access rights: present.
pub const AR_PRESENT: u32 = 1 << 7;

/// Access rights: 64-bit code.
pub const AR_LONG_MODE: u32 = 1 << 13;

/// Access rights: default operation size 32 bits.
pub const AR_DB: u32 = 1 << 14;

/// Access rights: 4 KiB granularity.
pub const AR_GRANULARITY: u32 = 1 << 15;

/// Access rights: unusable segment.
pub const AR_UNUSABLE: u32 = 1 << 16;

/// A segment register: selector, base, limit and access rights.
#[derive(Clone, Copy, Debug, PartialEq, Eq, Structural)]
pub struct Segment {
    pub selector: u16,
    pub base: u64,
    pub limit: u32,
    pub access_rights: u32,
}

impl Segment {
    /// An unusable segment.
    pub fn invalid() -> (r: Self)
        ensures
            r == (Segment { selector: 0, base: 0, limit: 0, access_rights: AR_UNUSABLE }),
    {
        Segment { selector: 0, base: 0, limit: 0, access_rights: AR_UNUSABLE }
    }
}

/// A descriptor-table register: limit and base.
#[derive(Clone, Copy, Debug, PartialEq, Eq, Structural)]
pub struct DescriptorTablePointer {
    pub limit: u16,
    pub base: u64,
}

/// The register and descriptor state of a host operating system.
#[derive(Clone, Copy, Debug, PartialEq, Eq, Structural)]
pub struct LinuxContext {
    pub rsp: u64,
    pub rip: u64,
    pub r15: u64,
    pub r14: u64,
    pub r13: u64,
    pub r12: u64,
    pub rbx: u64,
    pub rbp: u64,
    pub es: Segment,
    pub cs: Segment,
    pub ss: Segment,
    pub ds: Segment,
    pub fs: Segment,
    pub gs: Segment,
    pub tss: Segment,
    pub gdt: DescriptorTablePointer,
    pub idt: DescriptorTablePointer,
    pub cr0: u64,
    pub cr3: u64,
    pub cr4: u64,
    pub efer: u64,
    pub star: u64,
    pub lstar: u64,
    pub cstar: u64,
    pub fmask: u64,
    pub ia32_sysenter_cs: u64,
    pub ia32_sysenter_esp: u64,
    pub ia32_sysenter_eip: u64,
    pub kernel_gsbase: u64,
    pub pat: u64,
    pub mtrr_def_type: u64,
}

/// `CR0` of a 64-bit guest built from scratch: `PE`, `MP`, `ET`, `NE`, `WP`, `AM`, `PG`.
pub const GUEST64_CR0: u64 = 0x8005_0033;

/// `CR4` of a 64-bit guest built from scratch: `PAE`, `PGE`.
pub const GUEST64_CR4: u64 = 0xA0;

/// `EFER` of a 64-bit guest built from scratch: `SCE`, `LME`, `LMA`, `NXE`.
pub const GUEST64_EFER: u64 = 0xD01;

/// Access rights of the 64-bit code segment of a guest built from scratch.
pub const GUEST64_CS_AR: u32 = AR_ACCESSED | AR_WRITABLE | AR_EXECUTABLE | AR_CODE_DATA | AR_PRESENT
    | AR_LONG_MODE | AR_GRANULARITY;

/// Access rights of the stack segment of a guest built from scratch.
pub const GUEST64_SS_AR: u32 = AR_ACCESSED | AR_WRITABLE | AR_CODE_DATA | AR_PRESENT | AR_DB
    | AR_GRANULARITY;

/// Access rights of the task-state segment of a guest built from scratch.
pub const GUEST64_TSS_AR: u32 = AR_ACCESSED | AR_WRITABLE | AR_EXECUTABLE | AR_PRESENT;

/// The context with every register zero and every segment unusable.
pub open spec fn empty_context() -> LinuxContext {
    let inv = Segment { selector: 0, base: 0, limit: 0, access_rights: AR_UNUSABLE };
    let dt = DescriptorTablePointer { limit: 0, base: 0 };
    LinuxContext {
        rsp: 0,
        rip: 0,
        r15: 0,
        r14: 0,
        r13: 0,
        r12: 0,
        rbx: 0,
        rbp: 0,
        es: inv,
        cs: inv,
        ss: inv,
        ds: inv,
        fs: inv,
        gs: inv,
        tss: inv,
        gdt: dt,
        idt: dt,
        cr0: 0,
        cr3: 0,
        cr4: 0,
        efer: 0,
        star: 0,
        lstar: 0,
        cstar: 0,
        fmask: 0,
        ia32_sysenter_cs: 0,
        ia32_sysenter_esp: 0,
        ia32_sysenter_eip: 0,
        kernel_gsbase: 0,
        pat: 0,
        mtrr_def_type: 0,
    }
}

impl Default for LinuxContext {
    fn default() -> (r: Self)
        ensures
            r == empty_context(),
    {
        let inv = Segment::invalid();
        let dt = DescriptorTablePointer { limit: 0, base: 0 };
        LinuxContext {
            rsp: 0,
            rip: 0,
            r15: 0,
            r14: 0,
            r13: 0,
            r12: 0,
            rbx: 0,
            rbp: 0,
            es: inv,
            cs: inv,
            ss: inv,
            ds: inv,
            fs: inv,
            gs: inv,
            tss: inv,
            gdt: dt,
            idt: dt,
            cr0: 0,
            cr3: 0,
            cr4: 0,
            efer: 0,
            star: 0,
            lstar: 0,
            cstar: 0,
            fmask: 0,
            ia32_sysenter_cs: 0,
            ia32_sysenter_esp: 0,
            ia32_sysenter_eip: 0,
            kernel_gsbase: 0,
            pat: 0,
            mtrr_def_type: 0,
        }
    }
}

impl LinuxContext {
    /// A 64-bit context built from scratch that starts at `rip` with page table `cr3`:
    /// flat 64-bit code at selector 8, stack and task segments at selector 16, paging
    /// and long mode on.
    pub fn construct_guest64(rip: u64, cr3: u64) -> (r: Self)
        ensures
            r == (LinuxContext {
                rip,
                cr3,
                cs: Segment { selector: 8, base: 0, limit: 0xffff, access_rights: GUEST64_CS_AR },
                ss: Segment { selector: 16, base: 0, limit: 0xffff, access_rights: GUEST64_SS_AR },
                tss: Segment { selector: 16, base: 0, limit: 0, access_rights: GUEST64_TSS_AR },
                cr0: GUEST64_CR0,
                cr4: GUEST64_CR4,
                efer: GUEST64_EFER,
                ..empty_context()
            }),
    {
        let mut ctx = LinuxContext::default();
        ctx.rip = rip;
        ctx.cr3 = cr3;
        ctx.cs = Segment { selector: 8, base: 0, limit: 0xffff, access_rights: GUEST64_CS_AR };
        ctx.ss = Segment { selector: 16, base: 0, limit: 0xffff, access_rights: GUEST64_SS_AR };
        ctx.tss = Segment { selector: 16, base: 0, limit: 0, access_rights: GUEST64_TSS_AR };
        ctx.cr0 = GUEST64_CR0;
        ctx.cr4 = GUEST64_CR4;
        ctx.efer = GUEST64_EFER;
        ctx
    }

    /// Takes the callee-saved registers from the guest's register block.
    pub fn load_guest_regs(&mut self, regs: &GeneralRegisters)
        ensures
            *final(self) == (LinuxContext {
                r15: regs.r15,
                r14: regs.r14,
                r13: regs.r13,
                r12: regs.r12,
                rbx: regs.rbx,
                rbp: regs.rbp,
                ..*old(self)
            }),
    {
        self.r15 = regs.r15;
        self.r14 = regs.r14;
        self.r13 = regs.r13;
        self.r12 = regs.r12;
        self.rbx = regs.rbx;
        self.rbp = regs.rbp;
    }
}

/// The register block of a guest that adopts `ctx`: its callee-saved registers, the
/// others zero.
pub open spec fn regs_of_context_spec(ctx: LinuxContext) -> GeneralRegisters {
    GeneralRegisters {
        r15: ctx.r15,
        r14: ctx.r14,
        r13: ctx.r13,
        r12: ctx.r12,
        rbx: ctx.rbx,
        rbp: ctx.rbp,
        rax: 0,
        rcx: 0,
        rdx: 0,
        _unused_rsp: 0,
        rsi: 0,
        rdi: 0,
        r8: 0,
        r9: 0,
        r10: 0,
        r11: 0,
    }
}

/// The register block of a guest that adopts `ctx`.
pub fn regs_of_context(ctx: &LinuxContext) -> (r: GeneralRegisters)
    ensures
        r == regs_of_context_spec(*ctx),
{
    GeneralRegisters {
        r15: ctx.r15,
        r14: ctx.r14,
        r13: ctx.r13,
        r12: ctx.r12,
        rbx: ctx.rbx,
        rbp: ctx.rbp,
        rax: 0,
        rcx: 0,
        rdx: 0,
        _unused_rsp: 0,
        rsi: 0,
        rdi: 0,
        r8: 0,
        r9: 0,
        r10: 0,
        r11: 0,
    }
}

/// The guest-state area of a guest, as plain values.
#[derive(Clone, Copy, Debug, PartialEq, Eq, Structural)]
pub struct GuestState {
    pub cr0: CrWrite,
    pub cr3: u64,
    pub cr4: CrWrite,
    pub es: Segment,
    pub cs: Segment,
    pub ss: Segment,
    pub ds: Segment,
    pub fs: Segment,
    pub gs: Segment,
    pub tr: Segment,
    pub ldtr: Segment,
    pub gdtr: DescriptorTablePointer,
    pub idtr: DescriptorTablePointer,
    pub rsp: u64,
    pub rip: u64,
    pub rflags: u64,
    pub sysenter_cs: u32,
    pub sysenter_esp: u64,
    pub sysenter_eip: u64,
    pub dr7: u64,
    pub debugctl: u64,
    pub activity_state: u32,
    pub interruptibility: u32,
    pub pending_dbg_exceptions: u64,
    pub link_ptr: u64,
    pub preemption_timer: u32,
    pub pat: u64,
    pub efer: u64,
}

/// The guest state of a guest that adopts host context `ctx`, under the fixed-bit
/// MSRs of `CR0` and `CR4`: every segment, descriptor table, stack and instruction
/// pointer, the SYSENTER MSRs, PAT and EFER copied; LDTR unusable; `RFLAGS = 2`,
/// `DR7 = 0x400`, an active, uninterrupted processor and no VMCS link.
pub open spec fn guest_state_from_context_spec(
    ctx: LinuxContext,
    cr0_fixed0: u64,
    cr0_fixed1: u64,
    cr4_fixed0: u64,
    cr4_fixed1: u64,
) -> GuestState {
    GuestState {
        cr0: cr0_write_spec(ctx.cr0, cr0_fixed0, cr0_fixed1),
        cr3: ctx.cr3,
        cr4: cr4_write_spec(ctx.cr4, cr4_fixed0, cr4_fixed1),
        es: ctx.es,
        cs: ctx.cs,
        ss: ctx.ss,
        ds: ctx.ds,
        fs: ctx.fs,
        gs: ctx.gs,
        tr: ctx.tss,
        ldtr: Segment { selector: 0, base: 0, limit: 0, access_rights: AR_UNUSABLE },
        gdtr: ctx.gdt,
        idtr: ctx.idt,
        rsp: ctx.rsp,
        rip: ctx.rip,
        rflags: 0x2,
        sysenter_cs: (ctx.ia32_sysenter_cs as int % 0x1_0000_0000) as u32,
        sysenter_esp: ctx.ia32_sysenter_esp,
        sysenter_eip: ctx.ia32_sysenter_eip,
        dr7: 0x400,
        debugctl: 0,
        activity_state: 0,
        interruptibility: 0,
        pending_dbg_exceptions: 0,
        link_ptr: 0xffff_ffff_ffff_ffff,
        preemption_timer: 0,
        pat: ctx.pat,
        efer: ctx.efer,
    }
}

/// Builds the guest state of a guest that adopts host context `ctx`.
pub fn setup_vmcs_guest_from_ctx(
    ctx: &LinuxContext,
    cr0_fixed0: u64,
    cr0_fixed1: u64,
    cr4_fixed0: u64,
    cr4_fixed1: u64,
) -> (r: GuestState)
    ensures
        r == guest_state_from_context_spec(*ctx, cr0_fixed0, cr0_fixed1, cr4_fixed0, cr4_fixed1),
{
    GuestState {
        cr0: cr_write(0, ctx.cr0, cr0_fixed0, cr0_fixed1),
        cr3: ctx.cr3,
        cr4: cr_write(4, ctx.cr4, cr4_fixed0, cr4_fixed1),
        es: ctx.es,
        cs: ctx.cs,
        ss: ctx.ss,
        ds: ctx.ds,
        fs: ctx.fs,
        gs: ctx.gs,
        tr: ctx.tss,
        ldtr: Segment::invalid(),
        gdtr: ctx.gdt,
        idtr: ctx.idt,
        rsp: ctx.rsp,
        rip: ctx.rip,
        rflags: 0x2,
        sysenter_cs: crate::bits::low_u32(ctx.ia32_sysenter_cs),
        sysenter_esp: ctx.ia32_sysenter_esp,
        sysenter_eip: ctx.ia32_sysenter_eip,
        dr7: 0x400,
        debugctl: 0,
        activity_state: 0,
        interruptibility: 0,
        pending_dbg_exceptions: 0,
        link_ptr: 0xffff_ffff_ffff_ffff,
        preemption_timer: 0,
        pat: ctx.pat,
        efer: ctx.efer,
    }
}

/// The host context after the guest ran: what the guest-state area and register block
/// say of the instruction and stack pointers, control registers, selectors, the
/// access rights of `CS` and `SS`, the `FS` and `GS` bases, descriptor tables,
/// SYSENTER MSRs and callee-saved registers; the rest stays as in `ctx`.
pub open spec fn load_context_spec(gs: GuestState, regs: GeneralRegisters, ctx: LinuxContext) -> LinuxContext {
    LinuxContext {
        rip: gs.rip,
        rsp: gs.rsp,
        cr0: gs.cr0.value,
        cr3: gs.cr3,
        cr4: gs.cr4.value,
        es: Segment { selector: gs.es.selector, ..ctx.es },
        cs: Segment { selector: gs.cs.selector, access_rights: gs.cs.access_rights, ..ctx.cs },
        ss: Segment { selector: gs.ss.selector, access_rights: gs.ss.access_rights, ..ctx.ss },
        ds: Segment { selector: gs.ds.selector, ..ctx.ds },
        fs: Segment { selector: gs.fs.selector, base: gs.fs.base, ..ctx.fs },
        gs: Segment { selector: gs.gs.selector, base: gs.gs.base, ..ctx.gs },
        tss: Segment { selector: gs.tr.selector, ..ctx.tss },
        gdt: gs.gdtr,
        idt: gs.idtr,
        ia32_sysenter_cs: gs.sysenter_cs as u64,
        ia32_sysenter_esp: gs.sysenter_esp,
        ia32_sysenter_eip: gs.sysenter_eip,
        r15: regs.r15,
        r14: regs.r14,
        r13: regs.r13,
        r12: regs.r12,
        rbx: regs.rbx,
        rbp: regs.rbp,
        ..ctx
    }
}

/// Updates host context `ctx` from the guest state and register block of the guest
/// that adopted it.
pub fn load_vmcs_guest(gs: &GuestState, regs: &GeneralRegisters, ctx: &mut LinuxContext)
    ensures
        *final(ctx) == load_context_spec(*gs, *regs, *old(ctx)),
{
    ctx.rip = gs.rip;
    ctx.rsp = gs.rsp;
    ctx.cr0 = gs.cr0.value;
    ctx.cr3 = gs.cr3;
    ctx.cr4 = gs.cr4.value;
    ctx.es.selector = gs.es.selector;
    ctx.cs.selector = gs.cs.selector;
    ctx.cs.access_rights = gs.cs.access_rights;
    ctx.ss.selector = gs.ss.selector;
    ctx.ss.access_rights = gs.ss.access_rights;
    ctx.ds.selector = gs.ds.selector;
    ctx.fs.selector = gs.fs.selector;
    ctx.fs.base = gs.fs.base;
    ctx.gs.selector = gs.gs.selector;
    ctx.gs.base = gs.gs.base;
    ctx.tss.selector = gs.tr.selector;
    ctx.gdt = gs.gdtr;
    ctx.idt = gs.idtr;
    ctx.ia32_sysenter_cs = gs.sysenter_cs as u64;
    ctx.ia32_sysenter_esp = gs.sysenter_esp;
    ctx.ia32_sysenter_eip = gs.sysenter_eip;
    ctx.load_guest_regs(regs);
}

/// Adopting a host context and handing it back, with no guest change in between,
/// restores it exactly: selectors, bases, descriptor tables, control registers,
/// MSRs and callee-saved registers. This holds where the host's `CR0` and `CR4` are
/// already fixed points of the fixed-bit masks (as they are while VMX is on).
pub proof fn lemma_context_round_trip(
    ctx: LinuxContext,
    cr0_fixed0: u64,
    cr0_fixed1: u64,
    cr4_fixed0: u64,
    cr4_fixed1: u64,
)
    requires
        cr0_write_spec(ctx.cr0, cr0_fixed0, cr0_fixed1).value == ctx.cr0,
        cr4_write_spec(ctx.cr4, cr4_fixed0, cr4_fixed1).value == ctx.cr4,
        ctx.ia32_sysenter_cs <= 0xffff_ffff,
    ensures
        load_context_spec(
            guest_state_from_context_spec(ctx, cr0_fixed0, cr0_fixed1, cr4_fixed0, cr4_fixed1),
            regs_of_context_spec(ctx),
            ctx,
        ) == ctx,
{
}

/// `CR0` of a guest that starts in real mode: `NW`, `CD` and `ET`.
pub const REAL_MODE_CR0: u64 = 0x6000_0010;

/// Value of the preemption timer at each entry.
pub const VMX_PREEMPTION_TIMER_SET_VALUE: u32 = 1_000_000;

/// A flat real-mode segment with access rights `ar`.
pub open spec fn real_mode_segment(ar: u32) -> Segment {
    Segment { selector: 0, base: 0, limit: 0xffff, access_rights: ar }
}

/// The guest state of a fresh guest that starts in real mode at `entry`: `CR0 = NW|CD|ET`
/// and `CR4 = 0` under the fixed-bit MSRs, flat 64 KiB segments (code `0x9b`, data
/// `0x93`, TR `0x8b`, LDTR `0x82`), `RSP = 0`, `RFLAGS = 2`, `DR7 = 0x400`, no VMCS link,
/// the preemption timer armed, the host's PAT and `EFER = 0`.
pub open spec fn fresh_guest_state_spec(
    entry: u64,
    host_pat: u64,
    cr0_fixed0: u64,
    cr0_fixed1: u64,
    cr4_fixed0: u64,
    cr4_fixed1: u64,
) -> GuestState {
    GuestState {
        cr0: cr0_write_spec(REAL_MODE_CR0, cr0_fixed0, cr0_fixed1),
        cr3: 0,
        cr4: cr4_write_spec(0, cr4_fixed0, cr4_fixed1),
        es: real_mode_segment(0x93),
        cs: real_mode_segment(0x9b),
        ss: real_mode_segment(0x93),
        ds: real_mode_segment(0x93),
        fs: real_mode_segment(0x93),
        gs: real_mode_segment(0x93),
        tr: real_mode_segment(0x8b),
        ldtr: real_mode_segment(0x82),
        gdtr: DescriptorTablePointer { limit: 0xffff, base: 0 },
        idtr: DescriptorTablePointer { limit: 0xffff, base: 0 },
        rsp: 0,
        rip: entry,
        rflags: 0x2,
        sysenter_cs: 0,
        sysenter_esp: 0,
        sysenter_eip: 0,
        dr7: 0x400,
        debugctl: 0,
        activity_state: 0,
        interruptibility: 0,
        pending_dbg_exceptions: 0,
        link_ptr: 0xffff_ffff_ffff_ffff,
        preemption_timer: VMX_PREEMPTION_TIMER_SET_VALUE,
        pat: host_pat,
        efer: 0,
    }
}

fn real_mode_seg(ar: u32) -> (r: Segment)
    ensures
        r == real_mode_segment(ar),
{
    Segment { selector: 0, base: 0, limit: 0xffff, access_rights: ar }
}

/// Builds the guest state of a fresh guest that starts in real mode at `entry`.
pub fn setup_vmcs_guest(
    entry: u64,
    host_pat: u64,
    cr0_fixed0: u64,
    cr0_fixed1: u64,
    cr4_fixed0: u64,
    cr4_fixed1: u64,
) -> (r: GuestState)
    ensures
        r == fresh_guest_state_spec(entry, host_pat, cr0_fixed0, cr0_fixed1, cr4_fixed0, cr4_fixed1),
{
    GuestState {
        cr0: cr_write(0, REAL_MODE_CR0, cr0_fixed0, cr0_fixed1),
        cr3: 0,
        cr4: cr_write(4, 0, cr4_fixed0, cr4_fixed1),
        es: real_mode_seg(0x93),
        cs: real_mode_seg(0x9b),
        ss: real_mode_seg(0x93),
        ds: real_mode_seg(0x93),
        fs: real_mode_seg(0x93),
        gs: real_mode_seg(0x93),
        tr: real_mode_seg(0x8b),
        ldtr: real_mode_seg(0x82),
        gdtr: DescriptorTablePointer { limit: 0xffff, base: 0 },
        idtr: DescriptorTablePointer { limit: 0xffff, base: 0 },
        rsp: 0,
        rip: entry,
        rflags: 0x2,
        sysenter_cs: 0,
        sysenter_esp: 0,
        sysenter_eip: 0,
        dr7: 0x400,
        debugctl: 0,
        activity_state: 0,
        interruptibility: 0,
        pending_dbg_exceptions: 0,
        link_ptr: 0xffff_ffff_ffff_ffff,
        preemption_timer: VMX_PREEMPTION_TIMER_SET_VALUE,
        pat: host_pat,
        efer: 0,
    }
}

/// Descriptor type of an available 64-bit task-state segment.
pub const TSS_AVAILABLE: u64 = 0x9;

/// The task-state descriptor `entry` with its type set to available (bits 40 to 43),
/// clearing the busy flag so that `LTR` accepts it again.
pub fn tss_descriptor_available(entry: u64) -> (r: u64)
    ensures
        r == (entry & !(0xfu64 << 40u64)) | (TSS_AVAILABLE << 40u64),
{
    (entry & !(0xfu64 << 40u64)) | (TSS_AVAILABLE << 40u64)
}

/// The segment that selector `selector` loads from its 8-byte descriptor `entry`: base
/// from bits 16 to 39 and 56 to 63, limit from bits 0 to 15 and 48 to 51 (in 4 KiB units
/// when the granularity bit 55 is set), access rights from bits 40 to 47 and 52 to 55.
/// A null selector loads an unusable segment.
pub open spec fn segment_from_descriptor_spec(selector: u16, entry: u64) -> Segment {
    if selector / 4 == 0 {
        Segment { selector, base: 0, limit: 0, access_rights: AR_UNUSABLE }
    } else {
        let raw_limit = (entry % 0x1_0000) + ((entry / 0x1_0000_0000_0000) % 16) * 0x1_0000;
        let granular = (entry / 0x80_0000_0000_0000) % 2 == 1;
        Segment {
            selector,
            base: ((entry / 0x1_0000) % 0x100_0000 + (entry / 0x100_0000_0000_0000) * 0x100_0000) as u64,
            limit: if granular {
                (raw_limit * 0x1000 + 0xfff) as u32
            } else {
                raw_limit as u32
            },
            access_rights: ((entry / 0x100_0000_0000) % 0x100 + ((entry / 0x10_0000_0000_0000) % 16)
                * 0x1000) as u32,
        }
    }
}

/// Decodes the segment that `selector` loads from descriptor `entry`.
pub fn segment_from_descriptor(selector: u16, entry: u64) -> (r: Segment)
    ensures
        r == segment_from_descriptor_spec(selector, entry),
{
    if selector / 4 == 0 {
        return Segment { selector, base: 0, limit: 0, access_rights: AR_UNUSABLE };
    }
    assert(((entry >> 16u64) & 0xff_ffff) | ((entry >> 56u64) << 24u64) == (entry / 0x1_0000)
        % 0x100_0000 + (entry / 0x100_0000_0000_0000) * 0x100_0000 && (entry & 0xffff) | (((entry
        >> 48u64) & 0xf) << 16u64) == (entry % 0x1_0000) + ((entry / 0x1_0000_0000_0000) % 16)
        * 0x1_0000 && ((entry >> 55u64) & 1) == (entry / 0x80_0000_0000_0000) % 2 && ((entry
        >> 40u64) & 0xff) | (((entry >> 52u64) & 0xf) << 12u64) == (entry / 0x100_0000_0000)
        % 0x100 + ((entry / 0x10_0000_0000_0000) % 16) * 0x1000) by (bit_vector);
    let base = ((entry >> 16u64) & 0xff_ffff) | ((entry >> 56u64) << 24u64);
    let raw_limit = (entry & 0xffff) | (((entry >> 48u64) & 0xf) << 16u64);
    let granular = (entry >> 55u64) & 1 == 1;
    let limit: u32 = if granular {
        (raw_limit * 0x1000 + 0xfff) as u32
    } else {
        raw_limit as u32
    };
    let ar = (((entry >> 40u64) & 0xff) | (((entry >> 52u64) & 0xf) << 12u64)) as u32;
    Segment { selector, base, limit, access_rights: ar }
}

} // verus!
