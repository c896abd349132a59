//! Decoding of exit information into the neutral exit reasons surfaced to callers.
use vstd::prelude::*;

use crate::events::NMI_VECTOR;
use crate::regs::GeneralRegisters;

verus! {

/// Basic exit reason: exception or NMI.
pub const EXIT_EXCEPTION_NMI: u32 = 0;

/// Basic exit reason: external interrupt.
pub const EXIT_EXTERNAL_INTERRUPT: u32 = 1;

/// Basic exit reason: triple fault.
pub const EXIT_TRIPLE_FAULT: u32 = 2;

/// Basic exit reason: interrupt window.
pub const EXIT_INTERRUPT_WINDOW: u32 = 7;

/// Basic exit reason: `CPUID`.
pub const EXIT_CPUID: u32 = 10;

/// Basic exit reason: `HLT`.
pub const EXIT_HLT: u32 = 12;

/// Basic exit reason: `VMCALL`.
pub const EXIT_VMCALL: u32 = 18;

/// Basic exit reason: control-register access.
pub const EXIT_CR_ACCESS: u32 = 28;

/// Basic exit reason: I/O instruction.
pub const EXIT_IO_INSTRUCTION: u32 = 30;

/// Basic exit reason: EPT violation.
pub const EXIT_EPT_VIOLATION: u32 = 48;

/// Basic exit reason: preemption timer expired.
pub const EXIT_PREEMPTION_TIMER: u32 = 52;

/// Basic exit reason: `XSETBV`.
pub const EXIT_XSETBV: u32 = 55;

/// The exit code of a nested page fault.
pub const SVM_EXIT_NPF: u64 = 0x400;

/// The I/O port that signals a shutdown.
pub const QEMU_EXIT_PORT: u16 = 0x604;

/// The value that, written to the exit port, signals a shutdown.
pub const QEMU_EXIT_MAGIC: u64 = 0x2000;

/// Mapping flag: the access was a read.
pub const MAPPING_READ: u8 = 1 << 0;

/// Mapping flag: the access was a write.
pub const MAPPING_WRITE: u8 = 1 << 1;

/// Mapping flag: the access was an instruction fetch.
pub const MAPPING_EXECUTE: u8 = 1 << 2;

/// Mapping flag: the fault hit a present mapping.
pub const MAPPING_PRESENT: u8 = 1 << 3;

/// Width of a port access.
#[derive(Clone, Copy, Debug, PartialEq, Eq, Structural)]
pub enum AccessWidth {
    Byte,
    Word,
    Dword,
    Qword,
}

/// The bits of `rax` that an access of width `w` carries.
pub open spec fn width_mask(w: AccessWidth) -> u64 {
    match w {
        AccessWidth::Byte => 0xff,
        AccessWidth::Word => 0xffff,
        AccessWidth::Dword => 0xffff_ffff,
        AccessWidth::Qword => 0xffff_ffff_ffff_ffff,
    }
}

/// The width of an access of `size` bytes, where it is one.
pub open spec fn width_of_size(size: u8) -> Option<AccessWidth> {
    if size == 1 {
        Some(AccessWidth::Byte)
    } else if size == 2 {
        Some(AccessWidth::Word)
    } else if size == 4 {
        Some(AccessWidth::Dword)
    } else if size == 8 {
        Some(AccessWidth::Qword)
    } else {
        None
    }
}

/// Converts a size in bytes into an access width.
pub fn access_width(size: u8) -> (r: Option<AccessWidth>)
    ensures
        r == width_of_size(size),
{
    match size {
        1 => Some(AccessWidth::Byte),
        2 => Some(AccessWidth::Word),
        4 => Some(AccessWidth::Dword),
        8 => Some(AccessWidth::Qword),
        _ => None,
    }
}

/// A neutral reason for leaving the guest, for the caller to act on.
#[derive(Clone, Copy, Debug, PartialEq, Eq)]
pub enum ExitReason {
    /// A hypercall with its number and six arguments.
    Hypercall { nr: u64, args: [u64; 6] },
    /// A port read.
    IoRead { port: u16, width: AccessWidth },
    /// A port write of `data`.
    IoWrite { port: u16, width: AccessWidth, data: u64 },
    /// The guest asked for the machine to be shut down.
    SystemDown,
    /// A fault of the nested page table at guest-physical `addr`.
    NestedPageFault { addr: u64, access_flags: u8 },
    /// The entry into the guest failed.
    FailEntry { reason: u64 },
    /// An exit this core does not support.
    Halt,
    /// The exit was handled inside the core.
    Nothing,
}

/// Basic information on an exit.
#[derive(Clone, Copy, Debug, PartialEq, Eq, Structural)]
pub struct VmxExitInfo {
    /// Whether the exit is an entry failure (bit 31 of the raw reason).
    pub entry_failure: bool,
    /// The basic exit reason (bits 0 to 15 of the raw reason).
    pub exit_reason: u32,
    /// Length of the instruction that caused the exit.
    pub exit_instruction_length: u32,
    /// The guest `RIP` at the exit.
    pub guest_rip: u64,
}

impl VmxExitInfo {
    /// Decodes the raw exit-reason field together with the instruction length and `RIP`.
    pub fn from_raw(raw_reason: u32, exit_instruction_length: u32, guest_rip: u64) -> (r: Self)
        ensures
            r.entry_failure == (raw_reason & (1u32 << 31u32) != 0),
            r.exit_reason == raw_reason & 0xffff,
            r.exit_instruction_length == exit_instruction_length,
            r.guest_rip == guest_rip,
    {
        VmxExitInfo {
            entry_failure: raw_reason & (1u32 << 31u32) != 0,
            exit_reason: raw_reason & 0xffff,
            exit_instruction_length,
            guest_rip,
        }
    }
}

/// Information on an exit due to an I/O instruction.
#[derive(Clone, Copy, Debug, PartialEq, Eq, Structural)]
pub struct VmxIoExitInfo {
    /// Size of the access in bytes.
    pub access_size: u8,
    /// Whether the access is `IN` (else `OUT`).
    pub is_in: bool,
    /// Whether the instruction is a string instruction.
    pub is_string: bool,
    /// Whether it has a `REP` prefix.
    pub is_repeat: bool,
    /// The port.
    pub port: u16,
}

/// Decoded I/O exit qualification: size minus one in bits 0 to 2, direction in bit 3,
/// string in bit 4, `REP` in bit 5, port in bits 16 to 31.
pub open spec fn io_exit_info_spec(q: u64) -> VmxIoExitInfo {
    VmxIoExitInfo {
        access_size: ((q % 8) + 1) as u8,
        is_in: (q / 8) % 2 == 1,
        is_string: (q / 16) % 2 == 1,
        is_repeat: (q / 32) % 2 == 1,
        port: ((q / 0x1_0000) % 0x1_0000) as u16,
    }
}

/// Decodes the exit qualification of an I/O exit.
pub fn io_exit_info(q: u64) -> (r: VmxIoExitInfo)
    ensures
        r == io_exit_info_spec(q),
{
    assert((q & 7) == q % 8 && ((q >> 3u64) & 1) == (q / 8) % 2 && ((q >> 4u64) & 1) == (q / 16)
        % 2 && ((q >> 5u64) & 1) == (q / 32) % 2 && ((q >> 16u64) & 0xffff) == (q / 0x1_0000)
        % 0x1_0000) by (bit_vector);
    VmxIoExitInfo {
        access_size: ((q & 7) + 1) as u8,
        is_in: (q >> 3u64) & 1 == 1,
        is_string: (q >> 4u64) & 1 == 1,
        is_repeat: (q >> 5u64) & 1 == 1,
        port: ((q >> 16u64) & 0xffff) as u16,
    }
}

/// Access flags of an EPT violation: read, write and fetch from bits 0 to 2 of the
/// qualification, and present where the entry allowed any access (bits 3 to 5).
pub open spec fn ept_access_flags_spec(q: u64) -> u8 {
    (if q & 1 != 0 {
        MAPPING_READ
    } else {
        0
    }) | (if q & 2 != 0 {
        MAPPING_WRITE
    } else {
        0
    }) | (if q & 4 != 0 {
        MAPPING_EXECUTE
    } else {
        0
    }) | (if q & 0x38 != 0 {
        MAPPING_PRESENT
    } else {
        0
    })
}

/// Decodes the access flags of an EPT violation.
pub fn ept_access_flags(q: u64) -> (r: u8)
    ensures
        r == ept_access_flags_spec(q),
{
    let r: u8 = if q & 1 != 0 {
        MAPPING_READ
    } else {
        0
    };
    let w: u8 = if q & 2 != 0 {
        MAPPING_WRITE
    } else {
        0
    };
    let x: u8 = if q & 4 != 0 {
        MAPPING_EXECUTE
    } else {
        0
    };
    let p: u8 = if q & 0x38 != 0 {
        MAPPING_PRESENT
    } else {
        0
    };
    r | w | x | p
}

/// Access flags of a nested page fault: present from bit 0 of the first exit word,
/// write from bit 1, fetch from bit 4, and read for any access that is neither.
pub open spec fn npf_access_flags_spec(info1: u64) -> u8 {
    (if info1 & 2 == 0 && info1 & 0x10 == 0 {
        MAPPING_READ
    } else {
        0
    }) | (if info1 & 2 != 0 {
        MAPPING_WRITE
    } else {
        0
    }) | (if info1 & 0x10 != 0 {
        MAPPING_EXECUTE
    } else {
        0
    }) | (if info1 & 1 != 0 {
        MAPPING_PRESENT
    } else {
        0
    })
}

/// Decodes the access flags of a nested page fault.
pub fn npf_access_flags(info1: u64) -> (r: u8)
    ensures
        r == npf_access_flags_spec(info1),
{
    let r: u8 = if info1 & 2 == 0 && info1 & 0x10 == 0 {
        MAPPING_READ
    } else {
        0
    };
    let w: u8 = if info1 & 2 != 0 {
        MAPPING_WRITE
    } else {
        0
    };
    let x: u8 = if info1 & 0x10 != 0 {
        MAPPING_EXECUTE
    } else {
        0
    };
    let p: u8 = if info1 & 1 != 0 {
        MAPPING_PRESENT
    } else {
        0
    };
    r | w | x | p
}

/// What the core does with an exit.
#[derive(Clone, Copy, Debug, PartialEq, Eq, Structural)]
pub enum BuiltinExit {
    /// Turn interrupt-window exiting off.
    InterruptWindow,
    /// Rearm the preemption timer.
    PreemptionTimer,
    /// Load the guest's `XCR0` (`handle_xsetbv`).
    Xsetbv,
    /// Carry out a move to a control register (`handle_cr`).
    CrAccess,
    /// Shape `CPUID` (`handle_cpuid`).
    Cpuid,
    /// Deliver the NMI that arrived during the guest to the host.
    HostNmi,
    /// Not handled here: classify it and surface it to the caller.
    Surface,
}

/// Whether an exit is one the core refuses outright: an exception other than the NMI
/// reaches the core only through a mistake in its exception bitmap.
pub open spec fn is_fatal_exit(exit: VmxExitInfo, vector: u8) -> bool {
    !exit.entry_failure && exit.exit_reason == EXIT_EXCEPTION_NMI && vector != NMI_VECTOR
}

/// What the core does with `exit`, where `vector` is the vector of an exception or NMI
/// exit: interrupt window, preemption timer, `XSETBV`, control-register access, `CPUID`
/// and NMI are handled here; entry failures and every other exit are surfaced.
pub open spec fn builtin_exit_spec(exit: VmxExitInfo, vector: u8) -> BuiltinExit {
    if exit.entry_failure {
        BuiltinExit::Surface
    } else if exit.exit_reason == EXIT_INTERRUPT_WINDOW {
        BuiltinExit::InterruptWindow
    } else if exit.exit_reason == EXIT_PREEMPTION_TIMER {
        BuiltinExit::PreemptionTimer
    } else if exit.exit_reason == EXIT_XSETBV {
        BuiltinExit::Xsetbv
    } else if exit.exit_reason == EXIT_CR_ACCESS {
        BuiltinExit::CrAccess
    } else if exit.exit_reason == EXIT_CPUID {
        BuiltinExit::Cpuid
    } else if exit.exit_reason == EXIT_EXCEPTION_NMI {
        BuiltinExit::HostNmi
    } else {
        BuiltinExit::Surface
    }
}

/// Decides what the core does with `exit`.
pub fn builtin_exit(exit: &VmxExitInfo, vector: u8) -> (r: BuiltinExit)
    requires
        !is_fatal_exit(*exit, vector),
    ensures
        r == builtin_exit_spec(*exit, vector),
{
    if exit.entry_failure {
        BuiltinExit::Surface
    } else if exit.exit_reason == EXIT_INTERRUPT_WINDOW {
        BuiltinExit::InterruptWindow
    } else if exit.exit_reason == EXIT_PREEMPTION_TIMER {
        BuiltinExit::PreemptionTimer
    } else if exit.exit_reason == EXIT_XSETBV {
        BuiltinExit::Xsetbv
    } else if exit.exit_reason == EXIT_CR_ACCESS {
        BuiltinExit::CrAccess
    } else if exit.exit_reason == EXIT_CPUID {
        BuiltinExit::Cpuid
    } else if exit.exit_reason == EXIT_EXCEPTION_NMI {
        BuiltinExit::HostNmi
    } else {
        BuiltinExit::Surface
    }
}

/// The reason surfaced for a port access described by `io`, with `rax` as the guest left it.
pub open spec fn io_exit_reason_spec(io: VmxIoExitInfo, rax: u64) -> ExitReason {
    if io.is_repeat || io.is_string {
        ExitReason::Halt
    } else {
        match width_of_size(io.access_size) {
            None => ExitReason::Halt,
            Some(width) => {
                if io.is_in {
                    ExitReason::IoRead { port: io.port, width }
                } else if io.port == QEMU_EXIT_PORT && width == AccessWidth::Word && rax
                    == QEMU_EXIT_MAGIC {
                    ExitReason::SystemDown
                } else {
                    ExitReason::IoWrite { port: io.port, width, data: rax & width_mask(width) }
                }
            },
        }
    }
}

/// Classifies a port access: string and repeated forms are not supported (`Halt`);
/// a write of the magic word to the exit port is `SystemDown`.
pub fn io_exit_reason(io: &VmxIoExitInfo, rax: u64) -> (r: ExitReason)
    ensures
        r == io_exit_reason_spec(*io, rax),
{
    if io.is_repeat || io.is_string {
        return ExitReason::Halt;
    }
    match access_width(io.access_size) {
        None => ExitReason::Halt,
        Some(width) => {
            if io.is_in {
                ExitReason::IoRead { port: io.port, width }
            } else if io.port == QEMU_EXIT_PORT && width == AccessWidth::Word && rax
                == QEMU_EXIT_MAGIC {
                ExitReason::SystemDown
            } else {
                let mask: u64 = match width {
                    AccessWidth::Byte => 0xff,
                    AccessWidth::Word => 0xffff,
                    AccessWidth::Dword => 0xffff_ffff,
                    AccessWidth::Qword => 0xffff_ffff_ffff_ffff,
                };
                ExitReason::IoWrite { port: io.port, width, data: rax & mask }
            }
        },
    }
}

/// The reason surfaced for an exit that the core does not handle itself, and how far
/// guest `RIP` advances before it is surfaced.
pub open spec fn vmx_exit_reason_spec(
    exit: VmxExitInfo,
    regs: GeneralRegisters,
    qualification: u64,
    guest_paddr: u64,
) -> (ExitReason, u64) {
    if exit.entry_failure {
        (ExitReason::FailEntry { reason: exit.exit_reason as u64 }, 0)
    } else if exit.exit_reason == EXIT_VMCALL {
        (
            ExitReason::Hypercall {
                nr: regs.rax,
                args: [regs.rdi, regs.rsi, regs.rdx, regs.rcx, regs.r8, regs.r9],
            },
            exit.exit_instruction_length as u64,
        )
    } else if exit.exit_reason == EXIT_IO_INSTRUCTION {
        (io_exit_reason_spec(io_exit_info_spec(qualification), regs.rax), exit.exit_instruction_length as u64)
    } else if exit.exit_reason == EXIT_EPT_VIOLATION {
        (
            ExitReason::NestedPageFault {
                addr: guest_paddr,
                access_flags: ept_access_flags_spec(qualification),
            },
            0,
        )
    } else {
        (ExitReason::Halt, 0)
    }
}

/// Classifies an exit the core does not handle itself, given the exit qualification and
/// the faulting guest-physical address the processor reported. Returns the reason and
/// how far guest `RIP` advances: past the instruction for hypercalls and port accesses.
pub fn vmx_exit_reason(
    exit: &VmxExitInfo,
    regs: &GeneralRegisters,
    qualification: u64,
    guest_paddr: u64,
) -> (r: (ExitReason, u64))
    ensures
        r == vmx_exit_reason_spec(*exit, *regs, qualification, guest_paddr),
{
    if exit.entry_failure {
        (ExitReason::FailEntry { reason: exit.exit_reason as u64 }, 0)
    } else if exit.exit_reason == EXIT_VMCALL {
        (
            ExitReason::Hypercall {
                nr: regs.rax,
                args: [regs.rdi, regs.rsi, regs.rdx, regs.rcx, regs.r8, regs.r9],
            },
            exit.exit_instruction_length as u64,
        )
    } else if exit.exit_reason == EXIT_IO_INSTRUCTION {
        let io = io_exit_info(qualification);
        (io_exit_reason(&io, regs.rax), exit.exit_instruction_length as u64)
    } else if exit.exit_reason == EXIT_EPT_VIOLATION {
        (
            ExitReason::NestedPageFault {
                addr: guest_paddr,
                access_flags: ept_access_flags(qualification),
            },
            0,
        )
    } else {
        (ExitReason::Halt, 0)
    }
}

/// Classifies an exit of an AMD guest that the core does not handle itself: a nested
/// page fault carries the faulting address in the second exit word; other exits halt.
pub fn svm_exit_reason(exit_code: u64, exit_info_1: u64, exit_info_2: u64) -> (r: ExitReason)
    ensures
        exit_code == SVM_EXIT_NPF ==> r == (ExitReason::NestedPageFault {
            addr: exit_info_2,
            access_flags: npf_access_flags_spec(exit_info_1),
        }),
        exit_code != SVM_EXIT_NPF ==> r == ExitReason::Halt,
{
    if exit_code == SVM_EXIT_NPF {
        ExitReason::NestedPageFault { addr: exit_info_2, access_flags: npf_access_flags(exit_info_1) }
    } else {
        ExitReason::Halt
    }
}

/// The result of a run that ended in `exit`, once the core's own handler (if any) has
/// run: a handled exit is not surfaced (`Nothing`, `RIP` advanced by the handler
/// itself); any other exit is classified. Returns the reason and how far `RIP` advances.
pub open spec fn run_result_spec(
    exit: VmxExitInfo,
    vector: u8,
    regs: GeneralRegisters,
    qualification: u64,
    guest_paddr: u64,
) -> (ExitReason, u64) {
    if builtin_exit_spec(exit, vector) == BuiltinExit::Surface {
        vmx_exit_reason_spec(exit, regs, qualification, guest_paddr)
    } else {
        (ExitReason::Nothing, 0)
    }
}

/// The result of a run that ended in `exit`, after the core's own handler ran.
pub fn run_result(
    exit: &VmxExitInfo,
    vector: u8,
    regs: &GeneralRegisters,
    qualification: u64,
    guest_paddr: u64,
) -> (r: (ExitReason, u64))
    requires
        !is_fatal_exit(*exit, vector),
    ensures
        r == run_result_spec(*exit, vector, *regs, qualification, guest_paddr),
{
    match builtin_exit(exit, vector) {
        BuiltinExit::Surface => vmx_exit_reason(exit, regs, qualification, guest_paddr),
        _ => (ExitReason::Nothing, 0),
    }
}

} // verus!
