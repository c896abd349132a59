//! Per-vCPU virtualization core for x86-64 hosts: register files, control-structure
//! layouts, permission bitmaps, event injection, built-in exit handling and exit
//! classification. The decisions are made here on plain values; reading and writing
//! the processor's privileged state is left to the caller.

mod bitmap;
mod bits;
mod context;
mod decode;
mod ept;
mod error;
mod events;
mod exits;
mod handlers;
mod page_table;
mod regs;
mod svm;
mod vcpu;
pub mod vmcb;
mod vmx;
mod xstate;

pub use bitmap::{IOPm, MSRPm, MsrBitmap};
pub use context::{
    lemma_context_round_trip, load_vmcs_guest, regs_of_context, setup_vmcs_guest,
    segment_from_descriptor, setup_vmcs_guest_from_ctx, tss_descriptor_available, DescriptorTablePointer, GuestState, LinuxContext, Segment,
};
pub use decode::{
    calculate_instruction_length, insn_len_spec, lemma_decode_len_stable, LegacyPrefix, ModRm,
    PrefixInfo, RexPrefix, Sib, SizeInfo, VexPrefix, VmCpuMode,
};
pub use ept::GuestPageWalkInfo;
pub use error::HvError;
pub use events::{
    allow_interrupt, injection_word, lemma_injection_fifo, Injection, PendingEvents,
};
pub use exits::{
    access_width, builtin_exit, io_exit_info, io_exit_reason, run_result, svm_exit_reason,
    vmx_exit_reason, AccessWidth, BuiltinExit, ExitReason, VmxExitInfo, VmxIoExitInfo,
};
pub use handlers::{
    check_xcr0, cpuid_result, cr_access_info, cr_is_valid, cr_write, handle_cpuid, handle_cr,
    handle_xsetbv, set_control, CpuIdResult, CrAccessInfo, CrAccessPlan, CrWrite,
};
pub use page_table::{
    p1_index, p2_index, p3_index, p4_index, p5_index, read_chunk, GuestPageTable64, WalkStep,
};
pub use regs::{GeneralRegisters, GeneralRegistersDiff};
pub use svm::{SvmEnablePlan, SvmPerCpuState, VmLoadSaveStates};
pub use vcpu::{EntryPlan, VmxVcpu};
pub use vmcb::{lemma_vmcb_layout, set_vmcb_segment, SvmExitInfo, SvmIntercept, Vmcb};
pub use vmx::{
    get_cpu_mode, get_pagetable_walk_info, get_paging_level, get_tr_base, gva_to_linear_addr,
    interrupt_window_control, read_vmcs_revision_id, setup_vmcs_control, HostFeatures,
    VmxBasic, VmxControlCaps, VmxControls, VmxEnablePlan, VmxHostInfo, VmxPerCpuState,
};
pub use xstate::{enable_xsave, XState, XStateLoad};
