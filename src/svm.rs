//! AMD-V: turning SVM on and off on a processor, and the host state that
//! `VMLOAD`/`VMSAVE` do not keep for the host.
use vstd::prelude::*;

use crate::error::HvError;

verus! {

/// Host values of the registers that `VMLOAD` and `VMSAVE` switch: they load and store
/// only the guest's, so the host's are kept here across a run.
#[derive(Clone, Copy, Debug, Default, PartialEq, Eq, Structural)]
pub struct VmLoadSaveStates {
    /// Base of the FS segment.
    pub fs_base: u64,
    /// Base of the GS segment.
    pub gs_base: u64,
    /// `KERNEL_GS_BASE`.
    pub kernel_gs_base: u64,
    /// `SYSENTER_CS`.
    pub sysenter_cs: u64,
    /// `SYSENTER_ESP`.
    pub sysenter_esp: u64,
    /// `SYSENTER_EIP`.
    pub sysenter_eip: u64,
    /// `STAR`.
    pub star: u64,
    /// `LSTAR`.
    pub lstar: u64,
    /// `CSTAR`.
    pub cstar: u64,
    /// `SFMASK`.
    pub sfmask: u64,
    /// The local descriptor table register.
    pub ldtr: u16,
    /// The task register.
    pub tr: u16,
}

impl VmLoadSaveStates {
    /// Keeps the FS and GS bases, `KERNEL_GS_BASE` included, as read from the processor.
    pub fn save_fs_gs(&mut self, fs_base: u64, gs_base: u64, kernel_gs_base: u64)
        ensures
            *final(self) == (VmLoadSaveStates { fs_base, gs_base, kernel_gs_base, ..*old(self) }),
    {
        self.fs_base = fs_base;
        self.gs_base = gs_base;
        self.kernel_gs_base = kernel_gs_base;
    }

    /// Keeps the SYSENTER MSRs, as read from the processor.
    pub fn save_sysenter(&mut self, cs: u64, esp: u64, eip: u64)
        ensures
            *final(self) == (VmLoadSaveStates {
                sysenter_cs: cs,
                sysenter_esp: esp,
                sysenter_eip: eip,
                ..*old(self)
            }),
    {
        self.sysenter_cs = cs;
        self.sysenter_esp = esp;
        self.sysenter_eip = eip;
    }

    /// Keeps the SYSCALL MSRs, as read from the processor.
    pub fn save_syscall(&mut self, star: u64, lstar: u64, cstar: u64, sfmask: u64)
        ensures
            *final(self) == (VmLoadSaveStates { star, lstar, cstar, sfmask, ..*old(self) }),
    {
        self.star = star;
        self.lstar = lstar;
        self.cstar = cstar;
        self.sfmask = sfmask;
    }

    /// Keeps the LDTR and TR selectors, as read from the processor.
    pub fn save_segs(&mut self, ldtr: u16, tr: u16)
        ensures
            *final(self) == (VmLoadSaveStates { ldtr, tr, ..*old(self) }),
    {
        self.ldtr = ldtr;
        self.tr = tr;
    }

    /// Keeps every value of `hw`, the processor's current state.
    pub fn save_all(&mut self, hw: &VmLoadSaveStates)
        ensures
            *final(self) == *hw,
    {
        self.save_fs_gs(hw.fs_base, hw.gs_base, hw.kernel_gs_base);
        self.save_sysenter(hw.sysenter_cs, hw.sysenter_esp, hw.sysenter_eip);
        self.save_syscall(hw.star, hw.lstar, hw.cstar, hw.sfmask);
        self.save_segs(hw.ldtr, hw.tr);
    }

    /// The values to load back into the processor after the guest ran.
    pub fn load_all(&self) -> (r: VmLoadSaveStates)
        ensures
            r == *self,
    {
        *self
    }

    /// A record of the processor's current state `hw`.
    pub fn new_from_hardware(hw: &VmLoadSaveStates) -> (r: Self)
        ensures
            r == *hw,
    {
        let mut states = VmLoadSaveStates {
            fs_base: 0,
            gs_base: 0,
            kernel_gs_base: 0,
            sysenter_cs: 0,
            sysenter_esp: 0,
            sysenter_eip: 0,
            star: 0,
            lstar: 0,
            cstar: 0,
            sfmask: 0,
            ldtr: 0,
            tr: 0,
        };
        states.save_all(hw);
        states
    }
}

/// `EFER.SVME`.
pub const EFER_SVME: u64 = 1 << 12;

/// The steps that turn SVM on.
#[derive(Clone, Copy, Debug, PartialEq, Eq, Structural)]
pub struct SvmEnablePlan {
    /// The host-save area's physical address, for `VM_HSAVE_PA`.
    pub hsave_pa: u64,
    /// `EFER` with `SVME` set.
    pub efer: u64,
}

/// The per-processor state of SVM: the host-save area, once SVM is on.
#[derive(Clone, Copy, Debug, PartialEq, Eq, Structural)]
pub struct SvmPerCpuState {
    /// Physical address of the host-save area in use.
    pub hsave_pa: Option<u64>,
}

impl SvmPerCpuState {
    /// The state of a processor on which SVM was not turned on yet.
    pub fn new(_cpu_id: usize) -> (r: Result<Self, HvError>)
        ensures
            r == Ok::<Self, HvError>(SvmPerCpuState { hsave_pa: None }),
    {
        Ok(SvmPerCpuState { hsave_pa: None })
    }

    /// Whether SVM is on, given the processor's `EFER`.
    pub fn is_enabled(&self, efer: u64) -> (r: bool)
        ensures
            r == (efer & EFER_SVME != 0),
    {
        efer & EFER_SVME != 0
    }

    /// Checks that SVM can be turned on (`Unsupported` without SVM, `AlreadyEnabled` with
    /// `EFER.SVME` set) and returns the steps with the zeroed page at `hsave_pa` as
    /// host-save area, which is kept.
    pub fn hardware_enable(&mut self, has_svm: bool, efer: u64, hsave_pa: u64) -> (r: Result<
        SvmEnablePlan,
        HvError,
    >)
        ensures
            !has_svm ==> r == Err::<SvmEnablePlan, HvError>(HvError::Unsupported),
            has_svm && efer & EFER_SVME != 0 ==> r == Err::<SvmEnablePlan, HvError>(HvError::AlreadyEnabled),
            has_svm && efer & EFER_SVME == 0 ==> r == Ok::<SvmEnablePlan, HvError>(
                SvmEnablePlan { hsave_pa, efer: efer | EFER_SVME },
            ) && final(self).hsave_pa == Some(hsave_pa),
            r.is_err() ==> *final(self) == *old(self),
    {
        if !has_svm {
            return Err(HvError::Unsupported);
        }
        if efer & EFER_SVME != 0 {
            return Err(HvError::AlreadyEnabled);
        }
        self.hsave_pa = Some(hsave_pa);
        Ok(SvmEnablePlan { hsave_pa, efer: efer | EFER_SVME })
    }

    /// Checks that SVM can be turned off and returns `EFER` without `SVME`; the
    /// host-save area is released (`VM_HSAVE_PA` becomes 0). Fails with `NotEnabled`
    /// where SVM is off.
    pub fn hardware_disable(&mut self, efer: u64) -> (r: Result<u64, HvError>)
        ensures
            efer & EFER_SVME == 0 ==> r == Err::<u64, HvError>(HvError::NotEnabled) && *final(self) == *old(self),
            efer & EFER_SVME != 0 ==> r == Ok::<u64, HvError>(efer & !EFER_SVME) && final(self).hsave_pa.is_none(),
    {
        if efer & EFER_SVME == 0 {
            return Err(HvError::NotEnabled);
        }
        self.hsave_pa = None;
        Ok(efer & !EFER_SVME)
    }
}

} // verus!
