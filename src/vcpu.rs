//! The software half of a virtual CPU: its register block, launch state, pending
//! events, extended state, permission bitmaps and configuration.
use vstd::prelude::*;

use crate::bitmap::{IOPm, MsrBitmap, vmx_msr_in_range, vmx_msr_bit, bit_of, PAGE_SIZE, IO_PORT_COUNT};
use crate::context::{regs_of_context, regs_of_context_spec, LinuxContext};
use crate::error::HvError;
use crate::events::{injection_spec, queue_after_spec, Injection, PendingEvent, PendingEvents};
use crate::exits::{
    is_fatal_exit, run_result, run_result_spec, vmx_exit_reason, vmx_exit_reason_spec, ExitReason,
    VmxExitInfo, QEMU_EXIT_PORT,
};
use crate::handlers::{cpuid_spec, handle_cpuid, handle_xsetbv, xcr0_valid, CpuIdResult};
use crate::xstate::XState;
use crate::regs::{valid_reg_index, GeneralRegisters};

verus! {

/// What to do at the next entry.
#[derive(Clone, Copy, Debug, PartialEq, Eq, Structural)]
pub struct EntryPlan {
    /// The event to inject, or the interrupt window to open.
    pub injection: Injection,
    /// Whether this is the first entry since binding (`VMLAUNCH`), else `VMRESUME`.
    pub launch: bool,
}

/// A virtual CPU.
pub struct VmxVcpu {
    guest_regs: GeneralRegisters,
    host_stack_top: u64,
    launched: bool,
    io_bitmap: IOPm,
    msr_bitmap: MsrBitmap,
    pending_events: PendingEvents,
    xstate: XState,
    entry: Option<u64>,
    ept_root: Option<u64>,
    id: usize,
}

impl VmxVcpu {
    /// The guest's registers.
    pub closed spec fn regs_spec(&self) -> GeneralRegisters {
        self.guest_regs
    }

    /// Whether the guest has been entered since the last bind.
    pub closed spec fn launched_spec(&self) -> bool {
        self.launched
    }

    /// The events waiting for injection.
    pub closed spec fn events_spec(&self) -> Seq<PendingEvent> {
        self.pending_events@
    }

    /// The guest's extended state registers.
    pub closed spec fn xstate_spec(&self) -> XState {
        self.xstate
    }

    /// The entry guest-physical address, once set.
    pub closed spec fn entry_spec(&self) -> Option<u64> {
        self.entry
    }

    /// The root of the second-level page table, once set.
    pub closed spec fn ept_root_spec(&self) -> Option<u64> {
        self.ept_root
    }

    /// The identifier.
    pub closed spec fn id_spec(&self) -> usize {
        self.id
    }

    /// The I/O bitmap.
    pub closed spec fn io_bitmap_spec(&self) -> IOPm {
        self.io_bitmap
    }

    /// The MSR bitmap.
    pub closed spec fn msr_bitmap_spec(&self) -> MsrBitmap {
        self.msr_bitmap
    }

    /// Whether `other` has the same extended state, entry address, page-table root,
    /// identifier and permission bitmaps.
    pub open spec fn same_config(&self, other: &Self) -> bool {
        &&& self.xstate_spec() == other.xstate_spec()
        &&& self.entry_spec() == other.entry_spec()
        &&& self.ept_root_spec() == other.ept_root_spec()
        &&& self.id_spec() == other.id_spec()
        &&& self.io_bitmap_spec() == other.io_bitmap_spec()
        &&& self.msr_bitmap_spec() == other.msr_bitmap_spec()
    }

    /// The bitmaps have their sizes.
    pub open spec fn wf(&self) -> bool {
        self.io_bitmap_spec().wf() && self.msr_bitmap_spec().wf()
    }

    /// A virtual CPU with identifier `id` and the host's extended state `xstate`: zero
    /// registers, not launched, nothing pending, every port and MSR passed through,
    /// no entry and no page-table root yet.
    pub fn new(id: usize, xstate: XState) -> (r: Self)
        ensures
            r.wf(),
            r.regs_spec() == GeneralRegisters::default_spec(),
            !r.launched_spec(),
            r.events_spec() == Seq::<PendingEvent>::empty(),
            r.xstate_spec() == xstate,
            r.entry_spec().is_none(),
            r.ept_root_spec().is_none(),
            r.id_spec() == id,
            forall|p: int| 0 <= p < IO_PORT_COUNT ==> !#[trigger] r.io_bitmap_spec().intercepts(p),
    {
        VmxVcpu {
            guest_regs: GeneralRegisters::zeroed(),
            host_stack_top: 0,
            launched: false,
            io_bitmap: IOPm::passthrough_all(),
            msr_bitmap: MsrBitmap::passthrough_all(),
            pending_events: PendingEvents::new(),
            xstate,
            entry: None,
            ept_root: None,
            id,
        }
    }

    /// The identifier.
    pub fn id(&self) -> (r: usize)
        ensures
            r == self.id_spec(),
    {
        self.id
    }

    /// The guest's registers.
    pub fn regs(&self) -> (r: &GeneralRegisters)
        ensures
            *r == self.regs_spec(),
    {
        &self.guest_regs
    }

    /// The guest's extended state registers.
    pub fn xstate(&self) -> (r: &XState)
        ensures
            *r == self.xstate_spec(),
    {
        &self.xstate
    }

    /// Whether the guest has been entered since the last bind.
    pub fn launched(&self) -> (r: bool)
        ensures
            r == self.launched_spec(),
    {
        self.launched
    }

    /// Number of events waiting.
    pub fn pending_event_count(&self) -> (r: usize)
        ensures
            r == self.events_spec().len(),
    {
        self.pending_events.len()
    }

    /// The I/O bitmap, for installing in the control structure.
    pub fn io_bitmap(&self) -> (r: &IOPm)
        ensures
            *r == self.io_bitmap_spec(),
    {
        &self.io_bitmap
    }

    /// The MSR bitmap, for installing in the control structure.
    pub fn msr_bitmap(&self) -> (r: &MsrBitmap)
        ensures
            *r == self.msr_bitmap_spec(),
    {
        &self.msr_bitmap
    }

    /// Sets the guest-physical address where a fresh guest starts.
    pub fn set_entry(&mut self, entry: u64) -> (r: Result<(), HvError>)
        requires
            old(self).wf(),
        ensures
            final(self).wf(),
            final(self).xstate_spec() == old(self).xstate_spec(),
            final(self).id_spec() == old(self).id_spec(),
            final(self).io_bitmap_spec() == old(self).io_bitmap_spec(),
            final(self).msr_bitmap_spec() == old(self).msr_bitmap_spec(),
            r.is_ok(),
            final(self).entry_spec() == Some(entry),
            final(self).ept_root_spec() == old(self).ept_root_spec(),
            final(self).regs_spec() == old(self).regs_spec(),
            final(self).launched_spec() == old(self).launched_spec(),
            final(self).events_spec() == old(self).events_spec(),
    {
        self.entry = Some(entry);
        Ok(())
    }

    /// Sets the host-physical root of the second-level page table.
    pub fn set_ept_root(&mut self, ept_root: u64) -> (r: Result<(), HvError>)
        requires
            old(self).wf(),
        ensures
            final(self).wf(),
            final(self).xstate_spec() == old(self).xstate_spec(),
            final(self).id_spec() == old(self).id_spec(),
            final(self).io_bitmap_spec() == old(self).io_bitmap_spec(),
            final(self).msr_bitmap_spec() == old(self).msr_bitmap_spec(),
            r.is_ok(),
            final(self).ept_root_spec() == Some(ept_root),
            final(self).entry_spec() == old(self).entry_spec(),
            final(self).regs_spec() == old(self).regs_spec(),
            final(self).launched_spec() == old(self).launched_spec(),
            final(self).events_spec() == old(self).events_spec(),
    {
        self.ept_root = Some(ept_root);
        Ok(())
    }

    /// Prepares a fresh guest: returns the page-table root and the entry address, and
    /// intercepts the exit port; fails with `InvalidInput` before both are set.
    pub fn setup(&mut self) -> (r: Result<(u64, u64), HvError>)
        requires
            old(self).wf(),
        ensures
            final(self).wf(),
            old(self).ept_root_spec().is_some() && old(self).entry_spec().is_some() ==> r == Ok::<
                (u64, u64),
                HvError,
            >((old(self).ept_root_spec().unwrap(), old(self).entry_spec().unwrap())),
            !(old(self).ept_root_spec().is_some() && old(self).entry_spec().is_some()) ==> r == Err::<
                (u64, u64),
                HvError,
            >(HvError::InvalidInput),
            r.is_ok() ==> final(self).io_bitmap_spec().intercepts(QEMU_EXIT_PORT as int),
            final(self).regs_spec() == old(self).regs_spec(),
            final(self).events_spec() == old(self).events_spec(),
            final(self).launched_spec() == old(self).launched_spec(),
    {
        match (self.ept_root, self.entry) {
            (Some(root), Some(entry)) => {
                self.io_bitmap.set_intercept_of_range(QEMU_EXIT_PORT as u32, 1, true);
                Ok((root, entry))
            },
            _ => Err(HvError::InvalidInput),
        }
    }

    /// Prepares a guest that adopts host context `ctx`: its callee-saved registers
    /// become the guest's, the exit port is intercepted, and the page-table root is
    /// returned; fails with `InvalidInput` before the root is set.
    pub fn setup_from_context(&mut self, ctx: &LinuxContext) -> (r: Result<u64, HvError>)
        requires
            old(self).wf(),
        ensures
            final(self).wf(),
            old(self).ept_root_spec().is_some() ==> r == Ok::<u64, HvError>(old(self).ept_root_spec().unwrap())
                && final(self).regs_spec() == regs_of_context_spec(*ctx)
                && final(self).io_bitmap_spec().intercepts(QEMU_EXIT_PORT as int),
            old(self).ept_root_spec().is_none() ==> r == Err::<u64, HvError>(HvError::InvalidInput)
                && final(self).regs_spec() == old(self).regs_spec(),
            final(self).events_spec() == old(self).events_spec(),
            final(self).launched_spec() == old(self).launched_spec(),
    {
        match self.ept_root {
            Some(root) => {
                self.guest_regs = regs_of_context(ctx);
                self.io_bitmap.set_intercept_of_range(QEMU_EXIT_PORT as u32, 1, true);
                Ok(root)
            },
            None => Err(HvError::InvalidInput),
        }
    }

    /// Decides the next entry: once launched, the head of the queue is injected or the
    /// interrupt window opened (given whether the guest accepts interrupts); the first
    /// entry after binding launches and injects nothing.
    pub fn prepare_entry(&mut self, allow_interrupt: bool) -> (r: EntryPlan)
        requires
            old(self).wf(),
        ensures
            final(self).wf(),
            final(self).same_config(&*old(self)),
            r.launch == !old(self).launched_spec(),
            final(self).launched_spec(),
            old(self).launched_spec() ==> r.injection == injection_spec(old(self).events_spec(), allow_interrupt)
                && final(self).events_spec() == queue_after_spec(old(self).events_spec(), allow_interrupt),
            !old(self).launched_spec() ==> r.injection == Injection::Nothing && final(self).events_spec()
                == old(self).events_spec(),
            final(self).regs_spec() == old(self).regs_spec(),
    {
        if self.launched {
            let injection = self.pending_events.inject_pending_events(allow_interrupt);
            EntryPlan { injection, launch: false }
        } else {
            self.launched = true;
            EntryPlan { injection: Injection::Nothing, launch: true }
        }
    }

    /// Unbinds from the processor: the next entry launches again.
    pub fn unbind(&mut self)
        requires
            old(self).wf(),
        ensures
            final(self).wf(),
            final(self).same_config(&*old(self)),
            !final(self).launched_spec(),
            final(self).regs_spec() == old(self).regs_spec(),
            final(self).events_spec() == old(self).events_spec(),
    {
        self.launched = false;
    }

    /// Queues an event for injection before a later entry.
    pub fn queue_event(&mut self, vector: u8, err_code: Option<u32>)
        requires
            old(self).wf(),
        ensures
            final(self).wf(),
            final(self).same_config(&*old(self)),
            final(self).events_spec() == old(self).events_spec().push((vector, err_code)),
            final(self).regs_spec() == old(self).regs_spec(),
            final(self).launched_spec() == old(self).launched_spec(),
    {
        self.pending_events.push_back(vector, err_code);
    }

    /// Writes guest register `reg` (any but `rsp`, which lives in the control structure).
    pub fn set_gpr(&mut self, reg: usize, val: usize)
        requires
            old(self).wf(),
            valid_reg_index(reg as int),
        ensures
            final(self).wf(),
            final(self).same_config(&*old(self)),
            final(self).regs_spec().reg(reg as int) == val as u64,
            forall|j: int| 0 <= j < 16 && j != reg ==> #[trigger] final(self).regs_spec().reg(j) == old(
                self,
            ).regs_spec().reg(j),
            final(self).events_spec() == old(self).events_spec(),
    {
        self.guest_regs.set_reg_of_index(reg as u8, val as u64);
    }

    /// Reads guest register `reg`.
    pub fn read_gpr(&self, reg: usize) -> (r: u64)
        requires
            valid_reg_index(reg as int),
        ensures
            r == self.regs_spec().reg(reg as int),
    {
        self.guest_regs.get_reg_of_index(reg as u8)
    }

    /// The value the guest sees returned from a hypercall (`rax`).
    pub fn return_value(&self) -> (r: u64)
        ensures
            r == self.regs_spec().rax,
    {
        self.guest_regs.rax
    }

    /// Sets the value the guest sees returned from a hypercall (`rax`).
    pub fn set_return_value(&mut self, val: usize)
        requires
            old(self).wf(),
        ensures
            final(self).wf(),
            final(self).same_config(&*old(self)),
            final(self).regs_spec() == (GeneralRegisters { rax: val as u64, ..old(self).regs_spec() }),
            final(self).events_spec() == old(self).events_spec(),
    {
        self.guest_regs.rax = val as u64;
    }

    /// The guest's frame pointer (`rbp`).
    pub fn frame_pointer(&self) -> (r: u64)
        ensures
            r == self.regs_spec().rbp,
    {
        self.guest_regs.rbp
    }

    /// Sets the guest's frame pointer (`rbp`).
    pub fn set_frame_pointer(&mut self, val: usize)
        requires
            old(self).wf(),
        ensures
            final(self).wf(),
            final(self).same_config(&*old(self)),
            final(self).regs_spec() == (GeneralRegisters { rbp: val as u64, ..old(self).regs_spec() }),
            final(self).events_spec() == old(self).events_spec(),
    {
        self.guest_regs.rbp = val as u64;
    }

    /// Sets whether the `count` ports from `port_base` exit.
    pub fn set_io_intercept_of_range(&mut self, port_base: u32, count: u32, intercept: bool)
        requires
            old(self).wf(),
            port_base + count <= IO_PORT_COUNT,
        ensures
            final(self).wf(),
            forall|p: int| port_base <= p < port_base + count ==> #[trigger] final(self).io_bitmap_spec().intercepts(p)
                == intercept,
            forall|p: int|
                0 <= p < 3 * PAGE_SIZE * 8 && !(port_base <= p < port_base + count)
                    ==> #[trigger] final(self).io_bitmap_spec().intercepts(p) == old(self).io_bitmap_spec().intercepts(p),
            final(self).regs_spec() == old(self).regs_spec(),
            final(self).events_spec() == old(self).events_spec(),
    {
        self.io_bitmap.set_intercept_of_range(port_base, count, intercept);
    }

    /// Sets whether both reads and writes of `msr` exit.
    pub fn set_msr_intercept_of_range(&mut self, msr: u32, intercept: bool)
        requires
            old(self).wf(),
            vmx_msr_in_range(msr),
        ensures
            final(self).wf(),
            final(self).msr_bitmap_spec().intercepts(msr, false) == intercept,
            final(self).msr_bitmap_spec().intercepts(msr, true) == intercept,
            forall|j: int|
                0 <= j < PAGE_SIZE * 8 && j != vmx_msr_bit(msr, false) && j != vmx_msr_bit(msr, true)
                    ==> #[trigger] bit_of(final(self).msr_bitmap_spec()@, j) == bit_of(old(self).msr_bitmap_spec()@, j),
            final(self).regs_spec() == old(self).regs_spec(),
            final(self).events_spec() == old(self).events_spec(),
    {
        self.msr_bitmap.set_intercept(msr, false, intercept);
        self.msr_bitmap.set_intercept(msr, true, intercept);
    }

    /// Handles a `CPUID` exit with what the processor returns for the guest's leaf;
    /// returns how far `RIP` advances.
    pub fn handle_cpuid(&mut self, raw: CpuIdResult) -> (len: u8)
        requires
            old(self).wf(),
        ensures
            final(self).wf(),
            final(self).same_config(&*old(self)),
            final(self).launched_spec() == old(self).launched_spec(),
            len == 2,
            ({
                let r = cpuid_spec(
                    (old(self).regs_spec().rax as int % 0x1_0000_0000) as u32,
                    old(self).regs_spec().rcx,
                    raw,
                );
                &&& final(self).regs_spec().rax == r.eax as u64
                &&& final(self).regs_spec().rbx == r.ebx as u64
                &&& final(self).regs_spec().rcx == r.ecx as u64
                &&& final(self).regs_spec().rdx == r.edx as u64
            }),
            forall|j: int| 4 <= j < 16 ==> #[trigger] final(self).regs_spec().reg(j) == old(self).regs_spec().reg(j),
            final(self).events_spec() == old(self).events_spec(),
            final(self).xstate_spec() == old(self).xstate_spec(),
    {
        handle_cpuid(&mut self.guest_regs, raw)
    }

    /// Handles an `XSETBV` exit; returns how far `RIP` advances.
    pub fn handle_xsetbv(&mut self) -> (r: Result<u8, HvError>)
        requires
            old(self).wf(),
        ensures
            final(self).wf(),
            final(self).entry_spec() == old(self).entry_spec(),
            final(self).ept_root_spec() == old(self).ept_root_spec(),
            final(self).id_spec() == old(self).id_spec(),
            final(self).io_bitmap_spec() == old(self).io_bitmap_spec(),
            final(self).msr_bitmap_spec() == old(self).msr_bitmap_spec(),
            final(self).launched_spec() == old(self).launched_spec(),
            ({
                let regs = old(self).regs_spec();
                let index = regs.rcx as int % 0x1_0000_0000;
                let value = (regs.rdx as int % 0x1_0000_0000) * 0x1_0000_0000 + regs.rax as int
                    % 0x1_0000_0000;
                &&& index != 0 ==> r == Err::<u8, HvError>(HvError::Unsupported)
                    && final(self).xstate_spec() == old(self).xstate_spec()
                &&& index == 0 && !xcr0_valid(value as u64) ==> r == Err::<u8, HvError>(HvError::InvalidInput)
                    && final(self).xstate_spec() == old(self).xstate_spec()
                &&& index == 0 && xcr0_valid(value as u64) ==> r == Ok::<u8, HvError>(3)
                    && final(self).xstate_spec() == (XState {
                        guest_xcr0: value as u64,
                        ..old(self).xstate_spec()
                    })
            }),
            final(self).regs_spec() == old(self).regs_spec(),
            final(self).events_spec() == old(self).events_spec(),
    {
        handle_xsetbv(&self.guest_regs, &mut self.xstate)
    }

    /// Classifies an exit this core does not handle itself.
    pub fn exit_reason(&self, exit: &VmxExitInfo, qualification: u64, guest_paddr: u64) -> (r: (
        ExitReason,
        u64,
    ))
        ensures
            r == vmx_exit_reason_spec(*exit, self.regs_spec(), qualification, guest_paddr),
    {
        vmx_exit_reason(exit, &self.guest_regs, qualification, guest_paddr)
    }

    /// The result of a run that ended in `exit` (with `vector` for an exception or NMI
    /// exit), after the core's own handler ran: `Nothing` for a handled exit, else the
    /// classified reason and how far `RIP` advances.
    pub fn run_result(&self, exit: &VmxExitInfo, vector: u8, qualification: u64, guest_paddr: u64) -> (r: (
        ExitReason,
        u64,
    ))
        requires
            !is_fatal_exit(*exit, vector),
        ensures
            r == run_result_spec(*exit, vector, self.regs_spec(), qualification, guest_paddr),
    {
        run_result(exit, vector, &self.guest_regs, qualification, guest_paddr)
    }
}

} // verus!
