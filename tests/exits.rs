use x86_vcpu::{
    builtin_exit, io_exit_info, run_result, svm_exit_reason, vmx_exit_reason, AccessWidth,
    BuiltinExit, ExitReason, GeneralRegisters, VmxExitInfo,
};

fn exit(reason: u32, len: u32) -> VmxExitInfo {
    VmxExitInfo::from_raw(reason, len, 0x1000)
}

#[test]
fn exit_port_write_shuts_down() {
    let mut regs = GeneralRegisters::default();
    regs.rax = 0x2000;
    // OUT 0x604, AX: size 2, direction out
    let q = (0x604u64 << 16) | 1;
    let (reason, advance) = vmx_exit_reason(&exit(30, 1), &regs, q, 0);
    assert_eq!(reason, ExitReason::SystemDown);
    assert_eq!(advance, 1);
}

#[test]
fn port_accesses() {
    let mut regs = GeneralRegisters::default();
    regs.rax = 0x1234_5678;
    let out_byte = (0x3F8u64 << 16) | 0;
    assert_eq!(
        vmx_exit_reason(&exit(30, 1), &regs, out_byte, 0).0,
        ExitReason::IoWrite { port: 0x3F8, width: AccessWidth::Byte, data: 0x78 }
    );
    let in_dword = (0xCFCu64 << 16) | (1 << 3) | 3;
    assert_eq!(
        vmx_exit_reason(&exit(30, 1), &regs, in_dword, 0).0,
        ExitReason::IoRead { port: 0xCFC, width: AccessWidth::Dword }
    );
    let rep_string = (0x3F8u64 << 16) | (1 << 5) | (1 << 4);
    assert_eq!(vmx_exit_reason(&exit(30, 2), &regs, rep_string, 0), (ExitReason::Halt, 2));
    // the exit port with another value is an ordinary write
    regs.rax = 0x2001;
    assert_eq!(
        vmx_exit_reason(&exit(30, 1), &regs, (0x604u64 << 16) | 1, 0).0,
        ExitReason::IoWrite { port: 0x604, width: AccessWidth::Word, data: 0x2001 }
    );
    let info = io_exit_info((0x70u64 << 16) | (1 << 3) | 1);
    assert_eq!((info.port, info.access_size, info.is_in), (0x70, 2, true));
}

#[test]
fn nested_page_fault_on_write() {
    let regs = GeneralRegisters::default();
    // write access (bit 1) to a present, readable entry (bit 3)
    let q = 0b1010;
    assert_eq!(
        vmx_exit_reason(&exit(48, 3), &regs, q, 0x8000_0000),
        (ExitReason::NestedPageFault { addr: 0x8000_0000, access_flags: 0b1010 }, 0)
    );
    // AMD: present (bit 0) and write (bit 1)
    assert_eq!(
        svm_exit_reason(0x400, 0b11, 0x8000_0000),
        ExitReason::NestedPageFault { addr: 0x8000_0000, access_flags: 0b1010 }
    );
    // not present: only the write flag
    assert_eq!(
        svm_exit_reason(0x400, 0b10, 0x8000_0000),
        ExitReason::NestedPageFault { addr: 0x8000_0000, access_flags: 0b0010 }
    );
    assert_eq!(svm_exit_reason(0x7b, 0, 0), ExitReason::Halt);
}

#[test]
fn hypercall_and_entry_failure() {
    let mut regs = GeneralRegisters::default();
    regs.rax = 9;
    regs.rdi = 1;
    regs.rsi = 2;
    regs.rdx = 3;
    regs.rcx = 4;
    regs.r8 = 5;
    regs.r9 = 6;
    assert_eq!(
        vmx_exit_reason(&exit(18, 3), &regs, 0, 0),
        (ExitReason::Hypercall { nr: 9, args: [1, 2, 3, 4, 5, 6] }, 3)
    );
    let failed = VmxExitInfo::from_raw(0x8000_0021, 0, 0);
    assert!(failed.entry_failure);
    assert_eq!(failed.exit_reason, 33);
    assert_eq!(vmx_exit_reason(&failed, &regs, 0, 0), (ExitReason::FailEntry { reason: 33 }, 0));
    assert_eq!(vmx_exit_reason(&exit(2, 0), &regs, 0, 0), (ExitReason::Halt, 0));
}

#[test]
fn handled_exits_are_not_surfaced() {
    let mut regs = GeneralRegisters::default();
    regs.rax = 0x2000;
    assert_eq!(builtin_exit(&exit(7, 0), 0), BuiltinExit::InterruptWindow);
    assert_eq!(builtin_exit(&exit(52, 0), 0), BuiltinExit::PreemptionTimer);
    assert_eq!(builtin_exit(&exit(55, 3), 0), BuiltinExit::Xsetbv);
    assert_eq!(builtin_exit(&exit(28, 3), 0), BuiltinExit::CrAccess);
    assert_eq!(builtin_exit(&exit(10, 2), 0), BuiltinExit::Cpuid);
    assert_eq!(builtin_exit(&exit(0, 0), 2), BuiltinExit::HostNmi);
    assert_eq!(builtin_exit(&exit(30, 1), 0), BuiltinExit::Surface);
    assert_eq!(builtin_exit(&VmxExitInfo::from_raw(0x8000_000A, 0, 0), 0), BuiltinExit::Surface);
    for reason in [7u32, 52, 55, 28, 10] {
        assert_eq!(run_result(&exit(reason, 3), 0, &regs, 0, 0), (ExitReason::Nothing, 0));
    }
    assert_eq!(run_result(&exit(0, 0), 2, &regs, 0, 0), (ExitReason::Nothing, 0));
    // an OUT to the exit port is surfaced
    let q = (0x604u64 << 16) | 1;
    assert_eq!(run_result(&exit(30, 1), 0, &regs, q, 0), (ExitReason::SystemDown, 1));
    assert_eq!(run_result(&exit(12, 1), 0, &regs, 0, 0), (ExitReason::Halt, 0));
}
