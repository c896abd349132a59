//! Intel VT-x: the decisions of turning VMX on and off on a processor, the execution
//! controls of a guest, and the guest's mode and paging state.
use vstd::prelude::*;

use crate::decode::VmCpuMode;
use crate::ept::GuestPageWalkInfo;
use crate::error::HvError;
use crate::handlers::{cr_is_valid, cr_valid_spec, set_control, control_allowed, control_value, CR0_PE, CR0_PG, CR4_VMXE, EFER_LMA};

verus! {

/// `IA32_FEATURE_CONTROL.LOCK`.
pub const FEATURE_CONTROL_LOCKED: u64 = 1 << 0;

/// `IA32_FEATURE_CONTROL`: VMXON allowed outside SMX operation.
pub const FEATURE_CONTROL_VMXON_OUTSIDE_SMX: u64 = 1 << 2;

/// The write-back memory type.
pub const VMX_MEMORY_TYPE_WRITE_BACK: u8 = 6;

/// Size of a 4 KiB page.
pub const PAGE_SIZE_4K: u16 = 0x1000;

/// The fields of `IA32_VMX_BASIC`.
#[derive(Clone, Copy, Debug, PartialEq, Eq, Structural)]
pub struct VmxBasic {
    /// The revision identifier of control structures (bits 0 to 30).
    pub revision_id: u32,
    /// Size of the VMXON and control-structure regions (bits 32 to 44).
    pub region_size: u16,
    /// Whether region addresses are limited to 32 bits (bit 48).
    pub is_32bit_address: bool,
    /// Memory type of the regions (bits 50 to 53).
    pub mem_type: u8,
    /// Whether I/O exits report instruction information (bit 54).
    pub io_exit_info: bool,
    /// Whether the true control MSRs exist (bit 55).
    pub vmx_flex_controls: bool,
}

/// The fields of raw `IA32_VMX_BASIC` value `raw`.
pub open spec fn vmx_basic_spec(raw: u64) -> VmxBasic {
    VmxBasic {
        revision_id: (raw % 0x8000_0000) as u32,
        region_size: ((raw / 0x1_0000_0000) % 0x2000) as u16,
        is_32bit_address: (raw / 0x1_0000_0000_0000) % 2 == 1,
        mem_type: ((raw / 0x4_0000_0000_0000) % 16) as u8,
        io_exit_info: (raw / 0x40_0000_0000_0000) % 2 == 1,
        vmx_flex_controls: (raw / 0x80_0000_0000_0000) % 2 == 1,
    }
}

impl VmxBasic {
    /// Splits a raw `IA32_VMX_BASIC` value into its fields.
    pub fn from_raw(raw: u64) -> (r: Self)
        ensures
            r == vmx_basic_spec(raw),
    {
        assert((raw & 0x7fff_ffff) == raw % 0x8000_0000 && ((raw >> 32u64) & 0x1fff) == (raw
            / 0x1_0000_0000) % 0x2000 && ((raw >> 48u64) & 1) == (raw / 0x1_0000_0000_0000) % 2
            && ((raw >> 50u64) & 0xf) == (raw / 0x4_0000_0000_0000) % 16 && ((raw >> 54u64) & 1)
            == (raw / 0x40_0000_0000_0000) % 2 && ((raw >> 55u64) & 1) == (raw
            / 0x80_0000_0000_0000) % 2) by (bit_vector);
        VmxBasic {
            revision_id: (raw & 0x7fff_ffff) as u32,
            region_size: ((raw >> 32u64) & 0x1fff) as u16,
            is_32bit_address: (raw >> 48u64) & 1 == 1,
            mem_type: ((raw >> 50u64) & 0xf) as u8,
            io_exit_info: (raw >> 54u64) & 1 == 1,
            vmx_flex_controls: (raw >> 55u64) & 1 == 1,
        }
    }
}

/// The revision identifier of control structures, from raw `IA32_VMX_BASIC`.
pub fn read_vmcs_revision_id(vmx_basic: u64) -> (r: u32)
    ensures
        r == vmx_basic_spec(vmx_basic).revision_id,
{
    VmxBasic::from_raw(vmx_basic).revision_id
}

/// What the processor reports that turning VMX on depends on.
#[derive(Clone, Copy, Debug, PartialEq, Eq, Structural)]
pub struct VmxHostInfo {
    /// Whether `CPUID` advertises VMX.
    pub has_vmx: bool,
    pub cr0: u64,
    pub cr4: u64,
    /// `IA32_FEATURE_CONTROL`.
    pub feature_control: u64,
    pub cr0_fixed0: u64,
    pub cr0_fixed1: u64,
    pub cr4_fixed0: u64,
    pub cr4_fixed1: u64,
    /// Raw `IA32_VMX_BASIC`.
    pub vmx_basic: u64,
}

/// The steps that turn VMX on once the checks pass.
#[derive(Clone, Copy, Debug, PartialEq, Eq, Structural)]
pub struct VmxEnablePlan {
    /// A value to write to `IA32_FEATURE_CONTROL` first, where it is not locked yet.
    pub feature_control: Option<u64>,
    /// The revision identifier to write at the start of the VMXON region.
    pub revision_id: u32,
    /// `CR4` with `VMXE` set, to write before `VMXON`.
    pub cr4: u64,
}

/// The outcome of turning VMX on with the processor in state `h`.
pub open spec fn enable_spec(h: VmxHostInfo) -> Result<VmxEnablePlan, HvError> {
    let basic = vmx_basic_spec(h.vmx_basic);
    let locked = h.feature_control & FEATURE_CONTROL_LOCKED != 0;
    let outside = h.feature_control & FEATURE_CONTROL_VMXON_OUTSIDE_SMX != 0;
    if !h.has_vmx {
        Err(HvError::Unsupported)
    } else if h.cr4 & CR4_VMXE != 0 {
        Err(HvError::AlreadyEnabled)
    } else if locked && !outside {
        Err(HvError::Unsupported)
    } else if !cr_valid_spec(h.cr0, h.cr0_fixed0, h.cr0_fixed1) || !cr_valid_spec(
        h.cr4 | CR4_VMXE,
        h.cr4_fixed0,
        h.cr4_fixed1,
    ) {
        Err(HvError::BadState)
    } else if basic.region_size != PAGE_SIZE_4K || basic.mem_type != VMX_MEMORY_TYPE_WRITE_BACK
        || basic.is_32bit_address || !basic.io_exit_info || !basic.vmx_flex_controls {
        Err(HvError::Unsupported)
    } else {
        Ok(
            VmxEnablePlan {
                feature_control: if locked {
                    None
                } else {
                    Some(
                        h.feature_control | FEATURE_CONTROL_LOCKED
                            | FEATURE_CONTROL_VMXON_OUTSIDE_SMX,
                    )
                },
                revision_id: basic.revision_id,
                cr4: h.cr4 | CR4_VMXE,
            },
        )
    }
}

/// The per-processor state of VMX.
#[derive(Debug)]
pub struct VmxPerCpuState {
    /// The revision identifier of control structures on this processor.
    pub vmcs_revision_id: u32,
}

impl VmxPerCpuState {
    /// The state of a processor on which VMX was not turned on yet.
    pub fn new(_cpu_id: usize) -> (r: Result<Self, HvError>)
        ensures
            r.is_ok(),
            r.unwrap().vmcs_revision_id == 0,
    {
        Ok(VmxPerCpuState { vmcs_revision_id: 0 })
    }

    /// Whether VMX is on, given the processor's `CR4`.
    pub fn is_enabled(&self, cr4: u64) -> (r: bool)
        ensures
            r == (cr4 & CR4_VMXE != 0),
    {
        cr4 & CR4_VMXE != 0
    }

    /// Checks that VMX can be turned on, in the order the checks are made, and returns
    /// the steps to take; on success the revision identifier is kept.
    pub fn hardware_enable(&mut self, host: &VmxHostInfo) -> (r: Result<VmxEnablePlan, HvError>)
        ensures
            r == enable_spec(*host),
            r.is_ok() ==> final(self).vmcs_revision_id == r.unwrap().revision_id,
            r.is_err() ==> final(self).vmcs_revision_id == old(self).vmcs_revision_id,
    {
        if !host.has_vmx {
            return Err(HvError::Unsupported);
        }
        if host.cr4 & CR4_VMXE != 0 {
            return Err(HvError::AlreadyEnabled);
        }
        let locked = host.feature_control & FEATURE_CONTROL_LOCKED != 0;
        let outside = host.feature_control & FEATURE_CONTROL_VMXON_OUTSIDE_SMX != 0;
        if locked && !outside {
            return Err(HvError::Unsupported);
        }
        if !cr_is_valid(host.cr0, host.cr0_fixed0, host.cr0_fixed1) {
            return Err(HvError::BadState);
        }
        // CR4 is checked as VMX will run with it, with VMXE set.
        if !cr_is_valid(host.cr4 | CR4_VMXE, host.cr4_fixed0, host.cr4_fixed1) {
            return Err(HvError::BadState);
        }
        let basic = VmxBasic::from_raw(host.vmx_basic);
        if basic.region_size != PAGE_SIZE_4K {
            return Err(HvError::Unsupported);
        }
        if basic.mem_type != VMX_MEMORY_TYPE_WRITE_BACK {
            return Err(HvError::Unsupported);
        }
        if basic.is_32bit_address {
            return Err(HvError::Unsupported);
        }
        if !basic.io_exit_info {
            return Err(HvError::Unsupported);
        }
        if !basic.vmx_flex_controls {
            return Err(HvError::Unsupported);
        }
        let feature_control = if locked {
            None
        } else {
            Some(host.feature_control | FEATURE_CONTROL_LOCKED | FEATURE_CONTROL_VMXON_OUTSIDE_SMX)
        };
        self.vmcs_revision_id = basic.revision_id;
        Ok(VmxEnablePlan { feature_control, revision_id: basic.revision_id, cr4: host.cr4 | CR4_VMXE })
    }

    /// Checks that VMX can be turned off and returns `CR4` without `VMXE`, to write
    /// after `VMXOFF`; fails with `NotEnabled` where VMX is off.
    pub fn hardware_disable(&mut self, cr4: u64) -> (r: Result<u64, HvError>)
        ensures
            cr4 & CR4_VMXE == 0 ==> r == Err::<u64, HvError>(HvError::NotEnabled),
            cr4 & CR4_VMXE != 0 ==> r == Ok::<u64, HvError>(cr4 & !CR4_VMXE),
            *final(self) == *old(self),
    {
        if cr4 & CR4_VMXE == 0 {
            return Err(HvError::NotEnabled);
        }
        Ok(cr4 & !CR4_VMXE)
    }
}

/// Pin-based control: exit on NMI.
pub const PIN_NMI_EXITING: u32 = 1 << 3;

/// Primary control: exit at the interrupt window.
pub const CPU_INTERRUPT_WINDOW_EXITING: u32 = 1 << 2;

/// Primary control: exit on loads of `CR3`.
pub const CPU_CR3_LOAD_EXITING: u32 = 1 << 15;

/// Primary control: exit on stores of `CR3`.
pub const CPU_CR3_STORE_EXITING: u32 = 1 << 16;

/// Primary control: exit on loads of `CR8`.
pub const CPU_CR8_LOAD_EXITING: u32 = 1 << 19;

/// Primary control: exit on stores of `CR8`.
pub const CPU_CR8_STORE_EXITING: u32 = 1 << 20;

/// Primary control: use the I/O bitmaps.
pub const CPU_USE_IO_BITMAPS: u32 = 1 << 25;

/// Primary control: use the MSR bitmaps.
pub const CPU_USE_MSR_BITMAPS: u32 = 1 << 28;

/// Primary control: activate the secondary controls.
pub const CPU_SECONDARY_CONTROLS: u32 = 1 << 31;

/// Secondary control: enable EPT.
pub const CPU2_ENABLE_EPT: u32 = 1 << 1;

/// Secondary control: enable `RDTSCP`.
pub const CPU2_ENABLE_RDTSCP: u32 = 1 << 3;

/// Secondary control: unrestricted guest.
pub const CPU2_UNRESTRICTED_GUEST: u32 = 1 << 7;

/// Secondary control: enable `INVPCID`.
pub const CPU2_ENABLE_INVPCID: u32 = 1 << 12;

/// Secondary control: enable VM functions.
pub const CPU2_ENABLE_VM_FUNCTIONS: u32 = 1 << 13;

/// Secondary control: enable `XSAVES`/`XRSTORS`.
pub const CPU2_ENABLE_XSAVES_XRSTORS: u32 = 1 << 20;

/// Secondary control: enable user wait and pause.
pub const CPU2_ENABLE_USER_WAIT_PAUSE: u32 = 1 << 26;

/// Exit control: 64-bit host.
pub const EXIT_HOST_ADDRESS_SPACE_SIZE: u32 = 1 << 9;

/// Exit control: acknowledge the interrupt on exit.
pub const EXIT_ACK_INTERRUPT_ON_EXIT: u32 = 1 << 15;

/// Exit control: save guest `IA32_PAT`.
pub const EXIT_SAVE_IA32_PAT: u32 = 1 << 18;

/// Exit control: load host `IA32_PAT`.
pub const EXIT_LOAD_IA32_PAT: u32 = 1 << 19;

/// Exit control: save guest `IA32_EFER`.
pub const EXIT_SAVE_IA32_EFER: u32 = 1 << 20;

/// Exit control: load host `IA32_EFER`.
pub const EXIT_LOAD_IA32_EFER: u32 = 1 << 21;

/// Entry control: IA-32e mode guest.
pub const ENTRY_IA32E_MODE_GUEST: u32 = 1 << 9;

/// Entry control: load guest `IA32_PAT`.
pub const ENTRY_LOAD_IA32_PAT: u32 = 1 << 14;

/// Entry control: load guest `IA32_EFER`.
pub const ENTRY_LOAD_IA32_EFER: u32 = 1 << 15;

/// Exceptions that exit: only `#UD`.
pub const EXCEPTION_BITMAP: u32 = 1 << 6;

/// The capability MSRs of the execution controls: for each, the "true" MSR that
/// bounds what may be set, and the plain MSR whose low half gives the defaults.
#[derive(Clone, Copy, Debug, PartialEq, Eq, Structural)]
pub struct VmxControlCaps {
    pub true_pinbased: u64,
    pub pinbased: u64,
    pub true_procbased: u64,
    pub procbased: u64,
    pub procbased2: u64,
    pub true_exit: u64,
    pub exit: u64,
    pub true_entry: u64,
    pub entry: u64,
}

/// Host features that decide optional secondary controls.
#[derive(Clone, Copy, Debug, PartialEq, Eq, Structural)]
pub struct HostFeatures {
    pub rdtscp: bool,
    pub invpcid: bool,
    pub waitpkg: bool,
    pub xsaves: bool,
}

/// The execution controls of a guest.
#[derive(Clone, Copy, Debug, PartialEq, Eq, Structural)]
pub struct VmxControls {
    pub pinbased: u32,
    pub primary: u32,
    pub secondary: u32,
    pub exit: u32,
    pub entry: u32,
    pub exception_bitmap: u32,
}

/// The secondary controls asked for under host features `f`.
pub open spec fn secondary_wanted(f: HostFeatures) -> u32 {
    CPU2_ENABLE_EPT | CPU2_UNRESTRICTED_GUEST | CPU2_ENABLE_VM_FUNCTIONS | (if f.rdtscp {
        CPU2_ENABLE_RDTSCP
    } else {
        0
    }) | (if f.invpcid {
        CPU2_ENABLE_INVPCID
    } else {
        0
    }) | (if f.waitpkg {
        CPU2_ENABLE_USER_WAIT_PAUSE
    } else {
        0
    }) | (if f.xsaves {
        CPU2_ENABLE_XSAVES_XRSTORS
    } else {
        0
    })
}

/// The primary controls asked to be set.
pub open spec fn primary_set() -> u32 {
    CPU_USE_IO_BITMAPS | CPU_USE_MSR_BITMAPS | CPU_SECONDARY_CONTROLS
}

/// The primary controls asked to be clear.
pub open spec fn primary_clear() -> u32 {
    CPU_CR3_LOAD_EXITING | CPU_CR3_STORE_EXITING | CPU_CR8_LOAD_EXITING | CPU_CR8_STORE_EXITING
}

/// The exit controls asked for.
pub open spec fn exit_wanted() -> u32 {
    EXIT_HOST_ADDRESS_SPACE_SIZE | EXIT_ACK_INTERRUPT_ON_EXIT | EXIT_SAVE_IA32_PAT
        | EXIT_LOAD_IA32_PAT | EXIT_SAVE_IA32_EFER | EXIT_LOAD_IA32_EFER
}

/// The entry controls asked for; a guest that adopts a 64-bit host context enters
/// in IA-32e mode.
pub open spec fn entry_wanted(adopt_64bit_host: bool) -> u32 {
    ENTRY_LOAD_IA32_PAT | ENTRY_LOAD_IA32_EFER | (if adopt_64bit_host {
        ENTRY_IA32E_MODE_GUEST
    } else {
        0
    })
}

/// The entry controls asked to be clear: IA-32e mode unless a 64-bit host context is
/// adopted.
pub open spec fn entry_clear(adopt_64bit_host: bool) -> u32 {
    if adopt_64bit_host {
        0
    } else {
        ENTRY_IA32E_MODE_GUEST
    }
}

/// Low half of a capability MSR: its default control value.
pub open spec fn low_half(v: u64) -> u32 {
    (v as int % 0x1_0000_0000) as u32
}

/// The controls of a guest under capabilities `c` and host features `f`, or the
/// error of the first control that the capabilities refuse.
pub open spec fn controls_spec(c: VmxControlCaps, f: HostFeatures, adopt_64bit_host: bool) -> Result<
    VmxControls,
    HvError,
> {
    if !control_allowed(c.true_pinbased, PIN_NMI_EXITING, 0) || !control_allowed(
        c.true_procbased,
        primary_set(),
        primary_clear(),
    ) || !control_allowed(c.procbased2, secondary_wanted(f), 0) || !control_allowed(
        c.true_exit,
        exit_wanted(),
        0,
    ) || !control_allowed(c.true_entry, entry_wanted(adopt_64bit_host), entry_clear(adopt_64bit_host)) {
        Err(HvError::InvalidVmcsConfig)
    } else {
        Ok(
            VmxControls {
                pinbased: control_value(c.true_pinbased, low_half(c.pinbased), PIN_NMI_EXITING, 0),
                primary: control_value(
                    c.true_procbased,
                    low_half(c.procbased),
                    primary_set(),
                    primary_clear(),
                ),
                secondary: control_value(
                    c.procbased2,
                    low_half(c.procbased2),
                    secondary_wanted(f),
                    0,
                ),
                exit: control_value(c.true_exit, low_half(c.exit), exit_wanted(), 0),
                entry: control_value(
                    c.true_entry,
                    low_half(c.entry),
                    entry_wanted(adopt_64bit_host),
                    entry_clear(adopt_64bit_host),
                ),
                exception_bitmap: EXCEPTION_BITMAP,
            },
        )
    }
}

/// The secondary controls asked for under host features `f`.
fn secondary_controls_wanted(f: HostFeatures) -> (r: u32)
    ensures
        r == secondary_wanted(f),
{
    CPU2_ENABLE_EPT | CPU2_UNRESTRICTED_GUEST | CPU2_ENABLE_VM_FUNCTIONS | (if f.rdtscp {
        CPU2_ENABLE_RDTSCP
    } else {
        0
    }) | (if f.invpcid {
        CPU2_ENABLE_INVPCID
    } else {
        0
    }) | (if f.waitpkg {
        CPU2_ENABLE_USER_WAIT_PAUSE
    } else {
        0
    }) | (if f.xsaves {
        CPU2_ENABLE_XSAVES_XRSTORS
    } else {
        0
    })
}

/// Computes the execution controls of a guest: NMI exiting; I/O and MSR bitmaps and
/// secondary controls with no `CR3`/`CR8` exits; EPT, unrestricted guest, VM functions
/// and the optional features the host has; a 64-bit host that saves and loads PAT and
/// EFER; entries that load PAT and EFER, in IA-32e mode exactly when a 64-bit host is
/// adopted; and only `#UD` in the exception bitmap.
pub fn setup_vmcs_control(caps: &VmxControlCaps, features: HostFeatures, adopt_64bit_host: bool) -> (r:
    Result<VmxControls, HvError>)
    ensures
        r == controls_spec(*caps, features, adopt_64bit_host),
        r.is_ok() ==> ({
            let c = r.unwrap();
            &&& c.pinbased & PIN_NMI_EXITING == PIN_NMI_EXITING
            &&& c.primary & primary_set() == primary_set()
            &&& c.primary & primary_clear() == 0
            &&& c.secondary & secondary_wanted(features) == secondary_wanted(features)
            &&& c.exit & exit_wanted() == exit_wanted()
            &&& c.entry & entry_wanted(adopt_64bit_host) == entry_wanted(adopt_64bit_host)
            &&& c.entry & entry_clear(adopt_64bit_host) == 0
            &&& c.exception_bitmap == EXCEPTION_BITMAP
        }),
        r.is_ok() ==> ((r.unwrap().entry & ENTRY_IA32E_MODE_GUEST != 0) == adopt_64bit_host),
{
    let pinbased = match set_control(
        caps.true_pinbased,
        crate::bits::low_u32(caps.pinbased),
        PIN_NMI_EXITING,
        0,
    ) {
        Ok(v) => v,
        Err(e) => return Err(e),
    };
    let primary = match set_control(
        caps.true_procbased,
        crate::bits::low_u32(caps.procbased),
        CPU_USE_IO_BITMAPS | CPU_USE_MSR_BITMAPS | CPU_SECONDARY_CONTROLS,
        CPU_CR3_LOAD_EXITING | CPU_CR3_STORE_EXITING | CPU_CR8_LOAD_EXITING | CPU_CR8_STORE_EXITING,
    ) {
        Ok(v) => v,
        Err(e) => return Err(e),
    };
    let wanted2 = secondary_controls_wanted(features);
    let secondary = match set_control(
        caps.procbased2,
        crate::bits::low_u32(caps.procbased2),
        wanted2,
        0,
    ) {
        Ok(v) => v,
        Err(e) => return Err(e),
    };
    let exit = match set_control(
        caps.true_exit,
        crate::bits::low_u32(caps.exit),
        EXIT_HOST_ADDRESS_SPACE_SIZE | EXIT_ACK_INTERRUPT_ON_EXIT | EXIT_SAVE_IA32_PAT
            | EXIT_LOAD_IA32_PAT | EXIT_SAVE_IA32_EFER | EXIT_LOAD_IA32_EFER,
        0,
    ) {
        Ok(v) => v,
        Err(e) => return Err(e),
    };
    let wanted_entry = ENTRY_LOAD_IA32_PAT | ENTRY_LOAD_IA32_EFER | (if adopt_64bit_host {
        ENTRY_IA32E_MODE_GUEST
    } else {
        0
    });
    let clear_entry: u32 = if adopt_64bit_host {
        0
    } else {
        ENTRY_IA32E_MODE_GUEST
    };
    let entry = match set_control(
        caps.true_entry,
        crate::bits::low_u32(caps.entry),
        wanted_entry,
        clear_entry,
    ) {
        Ok(v) => v,
        Err(e) => return Err(e),
    };
    if adopt_64bit_host {
        assert(entry & ENTRY_IA32E_MODE_GUEST != 0) by (bit_vector)
            requires
                entry & (ENTRY_LOAD_IA32_PAT | ENTRY_LOAD_IA32_EFER | ENTRY_IA32E_MODE_GUEST) == (
                ENTRY_LOAD_IA32_PAT | ENTRY_LOAD_IA32_EFER | ENTRY_IA32E_MODE_GUEST),
        ;
    }
    Ok(VmxControls { pinbased, primary, secondary, exit, entry, exception_bitmap: EXCEPTION_BITMAP })
}

/// `CS` access rights: the `L` bit.
pub const CS_AR_LONG: u32 = 0x2000;

/// The mode of a guest with these `EFER`, `CS` access rights and `CR0`.
pub open spec fn cpu_mode_spec(efer: u64, cs_access_rights: u32, cr0: u64) -> VmCpuMode {
    if efer & EFER_LMA != 0 {
        if cs_access_rights & CS_AR_LONG != 0 {
            VmCpuMode::Mode64
        } else {
            VmCpuMode::Compatibility
        }
    } else if cr0 & CR0_PE != 0 {
        VmCpuMode::Protected
    } else {
        VmCpuMode::Real
    }
}

/// The mode of the guest.
pub fn get_cpu_mode(efer: u64, cs_access_rights: u32, cr0: u64) -> (r: VmCpuMode)
    ensures
        r == cpu_mode_spec(efer, cs_access_rights, cr0),
{
    if efer & EFER_LMA != 0 {
        if cs_access_rights & CS_AR_LONG != 0 {
            VmCpuMode::Mode64
        } else {
            VmCpuMode::Compatibility
        }
    } else if cr0 & CR0_PE != 0 {
        VmCpuMode::Protected
    } else {
        VmCpuMode::Real
    }
}

/// `CR0.WP`.
pub const CR0_WP: u64 = 1 << 16;

/// `CR4.PSE`.
pub const CR4_PSE: u64 = 1 << 4;

/// `CR4.PAE`.
pub const CR4_PAE: u64 = 1 << 5;

/// `CR4.SMEP`.
pub const CR4_SMEP: u64 = 1 << 20;

/// `CR4.SMAP`.
pub const CR4_SMAP: u64 = 1 << 21;

/// `EFER.NXE`.
pub const EFER_NXE: u64 = 1 << 11;

/// Number of paging levels of a guest: 0 without paging, 2 for 32-bit paging, 3 for
/// PAE, 4 in long mode.
pub open spec fn paging_level_spec(cr0: u64, cr4: u64, efer: u64) -> usize {
    if cr0 & CR0_PG == 0 {
        0
    } else if cr4 & CR4_PAE == 0 {
        2
    } else if efer & EFER_LMA != 0 {
        4
    } else {
        3
    }
}

/// Number of paging levels of the guest.
pub fn get_paging_level(cr0: u64, cr4: u64, efer: u64) -> (r: usize)
    ensures
        r == paging_level_spec(cr0, cr4, efer),
{
    if cr0 & CR0_PG == 0 {
        0
    } else if cr4 & CR4_PAE == 0 {
        2
    } else if efer & EFER_LMA != 0 {
        4
    } else {
        3
    }
}

/// Collects what a walk of the guest's page table needs: the root from `CR3`, the
/// number of levels and index width (9 bits from PAE on, 10 for 32-bit paging, 0
/// without paging), user mode from the DPL of `SS`, and the `WP`, `PSE`, `NXE`, `SMAP`
/// and `SMEP` switches (`PSE` always on beyond 32-bit paging, `NXE` off there).
pub fn get_pagetable_walk_info(cr3: u64, cr0: u64, cr4: u64, efer: u64, ss_access_rights: u32) -> (r:
    GuestPageWalkInfo)
    ensures
        r.top_entry == cr3 as usize,
        r.level == paging_level_spec(cr0, cr4, efer),
        r.width == (if r.level == 4 || r.level == 3 {
            9u32
        } else if r.level == 2 {
            10u32
        } else {
            0u32
        }),
        r.is_user_mode_access == ((ss_access_rights / 32) % 4 == 3),
        !r.is_write_access && !r.is_inst_fetch,
        r.pse == (r.level != 2 || cr4 & CR4_PSE != 0),
        r.wp == (cr0 & CR0_WP != 0),
        r.nxe == (r.level != 2 && efer & EFER_NXE != 0),
        r.is_smap_on == (cr4 & CR4_SMAP != 0),
        r.is_smep_on == (cr4 & CR4_SMEP != 0),
{
    let level = get_paging_level(cr0, cr4, efer);
    assert((ss_access_rights >> 5u32) & 3 == (ss_access_rights / 32) % 4) by (bit_vector);
    let is_user_mode_access = (ss_access_rights >> 5u32) & 3 == 3;
    let mut pse = true;
    let mut nxe = efer & EFER_NXE != 0;
    let width: u32;
    if level == 4 || level == 3 {
        width = 9;
    } else if level == 2 {
        width = 10;
        pse = cr4 & CR4_PSE != 0;
        nxe = false;
    } else {
        width = 0;
    }
    GuestPageWalkInfo {
        top_entry: cr3 as usize,
        level,
        width,
        is_user_mode_access,
        is_write_access: false,
        is_inst_fetch: false,
        pse,
        wp: cr0 & CR0_WP != 0,
        nxe,
        is_smap_on: cr4 & CR4_SMAP != 0,
        is_smep_on: cr4 & CR4_SMEP != 0,
    }
}

/// Base address of the task-state segment whose 16-byte system descriptor starts at
/// `entry` and continues in `next`, or 0 where the descriptor is not present.
pub open spec fn tss_base_spec(entry: u64, next: u64) -> u64 {
    if entry & (1u64 << 47u64) != 0 {
        ((entry >> 16u64) & 0xff_ffff) | (((entry >> 56u64) & 0xff) << 24u64) | ((next
            & 0xffff_ffff) << 32u64)
    } else {
        0
    }
}

/// Resolves the base of the task-state segment that selector `tr` names in `gdt`.
pub fn get_tr_base(tr: u16, gdt: &[u64]) -> (r: u64)
    requires
        (tr as int / 8) + 1 < gdt@.len(),
    ensures
        r == tss_base_spec(gdt@[tr as int / 8], gdt@[tr as int / 8 + 1]),
{
    let index = (tr / 8) as usize;
    let entry = gdt[index];
    if entry & (1u64 << 47u64) != 0 {
        let next = gdt[index + 1];
        ((entry >> 16u64) & 0xff_ffff) | (((entry >> 56u64) & 0xff) << 24u64) | ((next
            & 0xffff_ffff) << 32u64)
    } else {
        0
    }
}

/// The primary controls with interrupt-window exiting switched on or off, the other
/// bits kept.
pub fn interrupt_window_control(ctrl: u32, enable: bool) -> (r: u32)
    ensures
        enable ==> r == ctrl | CPU_INTERRUPT_WINDOW_EXITING,
        !enable ==> r == ctrl & !CPU_INTERRUPT_WINDOW_EXITING,
{
    if enable {
        ctrl | CPU_INTERRUPT_WINDOW_EXITING
    } else {
        ctrl & !CPU_INTERRUPT_WINDOW_EXITING
    }
}

/// The linear address of guest virtual address `vaddr`: outside 64-bit mode the code
/// segment's base is added (modulo 2^64).
pub fn gva_to_linear_addr(vaddr: u64, mode: VmCpuMode, cs_base: u64) -> (r: u64)
    ensures
        mode == VmCpuMode::Mode64 ==> r == vaddr,
        mode != VmCpuMode::Mode64 ==> r as int == (vaddr as int + cs_base as int) % 0x1_0000_0000_0000_0000,
{
    if mode == VmCpuMode::Mode64 {
        vaddr
    } else {
        vaddr.wrapping_add(cs_base)
    }
}

} // verus!
