//! The exits that the core handles itself: CPUID shaping, XCR0 loads through
//! `XSETBV`, moves to `CR0`/`CR4`, and the capability checks of execution controls.
use vstd::prelude::*;

use crate::error::HvError;
use crate::regs::GeneralRegisters;
use crate::xstate::XState;

verus! {

/// Length of the `CPUID` instruction.
pub const VM_EXIT_INSTR_LEN_CPUID: u8 = 2;

/// Length of the `XSETBV` instruction.
pub const VM_EXIT_INSTR_LEN_XSETBV: u8 = 3;

/// Length of a `MOV` to a control register.
pub const VM_EXIT_INSTR_LEN_MV_TO_CR: u8 = 3;

/// Leaf of the basic feature information.
pub const LEAF_FEATURE_INFO: u32 = 0x1;

/// Leaf of the structured extended feature flags.
pub const LEAF_STRUCTURED_EXTENDED_FEATURE_FLAGS: u32 = 0x7;

/// Leaf of the processor extended state enumeration.
pub const LEAF_PROCESSOR_EXTENDED_STATE: u32 = 0xd;

/// Leaf of the processor frequency information.
pub const LEAF_FREQUENCY_INFO: u32 = 0x16;

/// Leaf of the hypervisor vendor.
pub const LEAF_HYPERVISOR_INFO: u32 = 0x4000_0000;

/// Leaf of the hypervisor features.
pub const LEAF_HYPERVISOR_FEATURE: u32 = 0x4000_0001;

/// `ECX.VMX` of leaf 1.
pub const FEATURE_VMX: u32 = 1 << 5;

/// `ECX.HYPERVISOR` of leaf 1.
pub const FEATURE_HYPERVISOR: u32 = 1 << 31;

/// The machine-check bit that leaf 1 hides, in `EAX`.
pub const FEATURE_MCE: u32 = 1 << 7;

/// `ECX.WAITPKG` of leaf 7.
pub const FEATURE_WAITPKG: u32 = 1 << 5;

/// `ECX.LA57` of leaf 7.
pub const FEATURE_LA57: u32 = 1 << 16;

/// Frequency reported by leaf `0x16` when the processor reports none, in MHz.
pub const TIMER_FREQUENCY_MHZ: u32 = 3_000;

/// The vendor string "RVMRVMRVMRVM" packed little-endian: its bytes 0 to 3.
pub const VENDOR_EBX: u32 = 0x524D_5652;

/// The vendor string, bytes 4 to 7.
pub const VENDOR_ECX: u32 = 0x5652_4D56;

/// The vendor string, bytes 8 to 11.
pub const VENDOR_EDX: u32 = 0x4D56_524D;

/// The four registers that `CPUID` returns.
#[derive(Clone, Copy, Debug, PartialEq, Eq, Structural)]
pub struct CpuIdResult {
    pub eax: u32,
    pub ebx: u32,
    pub ecx: u32,
    pub edx: u32,
}

/// What the guest sees for leaf `function`, sub-leaf `subleaf`, where the processor
/// itself returns `raw`.
pub open spec fn cpuid_spec(function: u32, subleaf: u64, raw: CpuIdResult) -> CpuIdResult {
    if function == LEAF_FEATURE_INFO {
        CpuIdResult {
            eax: raw.eax & !FEATURE_MCE,
            ecx: (raw.ecx & !FEATURE_VMX) | FEATURE_HYPERVISOR,
            ..raw
        }
    } else if function == LEAF_STRUCTURED_EXTENDED_FEATURE_FLAGS && subleaf == 0 {
        CpuIdResult { ecx: raw.ecx & !FEATURE_WAITPKG & !FEATURE_LA57, ..raw }
    } else if function == LEAF_HYPERVISOR_INFO {
        CpuIdResult {
            eax: LEAF_HYPERVISOR_FEATURE,
            ebx: VENDOR_EBX,
            ecx: VENDOR_ECX,
            edx: VENDOR_EDX,
        }
    } else if function == LEAF_HYPERVISOR_FEATURE {
        CpuIdResult { eax: 0, ebx: 0, ecx: 0, edx: 0 }
    } else if function == LEAF_FREQUENCY_INFO && raw.eax == 0 {
        CpuIdResult { eax: TIMER_FREQUENCY_MHZ, ..raw }
    } else {
        raw
    }
}

/// Shapes the result of `CPUID` for the guest.
pub fn cpuid_result(function: u32, subleaf: u64, raw: CpuIdResult) -> (r: CpuIdResult)
    ensures
        r == cpuid_spec(function, subleaf, raw),
{
    if function == LEAF_FEATURE_INFO {
        CpuIdResult {
            eax: raw.eax & !FEATURE_MCE,
            ebx: raw.ebx,
            ecx: (raw.ecx & !FEATURE_VMX) | FEATURE_HYPERVISOR,
            edx: raw.edx,
        }
    } else if function == LEAF_STRUCTURED_EXTENDED_FEATURE_FLAGS && subleaf == 0 {
        CpuIdResult { eax: raw.eax, ebx: raw.ebx, ecx: raw.ecx & !FEATURE_WAITPKG & !FEATURE_LA57, edx: raw.edx }
    } else if function == LEAF_HYPERVISOR_INFO {
        CpuIdResult {
            eax: LEAF_HYPERVISOR_FEATURE,
            ebx: VENDOR_EBX,
            ecx: VENDOR_ECX,
            edx: VENDOR_EDX,
        }
    } else if function == LEAF_HYPERVISOR_FEATURE {
        CpuIdResult { eax: 0, ebx: 0, ecx: 0, edx: 0 }
    } else if function == LEAF_FREQUENCY_INFO && raw.eax == 0 {
        CpuIdResult { eax: TIMER_FREQUENCY_MHZ, ebx: raw.ebx, ecx: raw.ecx, edx: raw.edx }
    } else {
        raw
    }
}

/// Handles a `CPUID` exit: the leaf is the low half of `rax`, the sub-leaf `rcx`, and
/// `raw` what the processor returns for them. Writes the shaped result to `rax`,
/// `rbx`, `rcx` and `rdx`, and returns how far `RIP` advances.
pub fn handle_cpuid(regs: &mut GeneralRegisters, raw: CpuIdResult) -> (len: u8)
    ensures
        len == VM_EXIT_INSTR_LEN_CPUID,
        ({
            let r = cpuid_spec((old(regs).rax as int % 0x1_0000_0000) as u32, old(regs).rcx, raw);
            &&& final(regs).rax == r.eax as u64
            &&& final(regs).rbx == r.ebx as u64
            &&& final(regs).rcx == r.ecx as u64
            &&& final(regs).rdx == r.edx as u64
        }),
        forall|j: int| 4 <= j < 16 ==> #[trigger] final(regs).reg(j) == old(regs).reg(j),
{
    let function = regs.eax();
    let res = cpuid_result(function, regs.rcx, raw);
    regs.rax = res.eax as u64;
    regs.rbx = res.ebx as u64;
    regs.rcx = res.ecx as u64;
    regs.rdx = res.edx as u64;
    VM_EXIT_INSTR_LEN_CPUID
}

/// `XCR0.X87`.
pub const XCR0_FPU_MMX: u64 = 1 << 0;

/// `XCR0.SSE`.
pub const XCR0_SSE: u64 = 1 << 1;

/// `XCR0.AVX`.
pub const XCR0_AVX: u64 = 1 << 2;

/// `XCR0.BNDREG`.
pub const XCR0_BNDREG: u64 = 1 << 3;

/// `XCR0.BNDCSR`.
pub const XCR0_BNDCSR: u64 = 1 << 4;

/// `XCR0.OPMASK`.
pub const XCR0_OPMASK: u64 = 1 << 5;

/// `XCR0.ZMM_Hi256`.
pub const XCR0_ZMM_HI256: u64 = 1 << 6;

/// `XCR0.Hi16_ZMM`.
pub const XCR0_HI16_ZMM: u64 = 1 << 7;

/// `XCR0.PKRU`.
pub const XCR0_PKRU: u64 = 1 << 9;

/// Every state component that `Xcr0` of the x86 crate names.
pub const XCR0_KNOWN: u64 = 0x2FF;

/// The three AVX-512 state components.
pub const XCR0_AVX512: u64 = XCR0_OPMASK | XCR0_ZMM_HI256 | XCR0_HI16_ZMM;

/// Whether `v` is a value the guest may load into `XCR0`: known components only, x87
/// present, AVX only with SSE, both MPX components or neither, and the AVX-512
/// components all together with AVX, or none of them.
pub open spec fn xcr0_valid(v: u64) -> bool {
    &&& v & !XCR0_KNOWN == 0
    &&& v & XCR0_FPU_MMX != 0
    &&& (v & XCR0_AVX != 0 ==> v & XCR0_SSE != 0)
    &&& ((v & XCR0_BNDCSR != 0) == (v & XCR0_BNDREG != 0))
    &&& (v & XCR0_AVX512 != 0 ==> v & XCR0_AVX512 == XCR0_AVX512 && v & XCR0_AVX != 0)
}

/// Relies on `x86::controlregs::Xcr0::from_bits` (bitflags 1.3): `Some` exactly when
/// `v` has no bit outside the named components, keeping the bits as they are.
#[verifier::external_body]
fn xcr0_from_bits(v: u64) -> (r: Option<u64>)
    ensures
        r == (if v & !XCR0_KNOWN == 0 {
            Some(v)
        } else {
            None::<u64>
        }),
{
    x86::controlregs::Xcr0::from_bits(v).map(|x| x.bits())
}

/// Checks a value for `XCR0`, returning it where the guest may load it.
pub fn check_xcr0(v: u64) -> (r: Option<u64>)
    ensures
        r == (if xcr0_valid(v) {
            Some(v)
        } else {
            None::<u64>
        }),
{
    match xcr0_from_bits(v) {
        None => None,
        Some(x) => {
            if x & XCR0_FPU_MMX == 0 {
                return None;
            }
            if x & XCR0_AVX != 0 && x & XCR0_SSE == 0 {
                return None;
            }
            if (x & XCR0_BNDCSR != 0) != (x & XCR0_BNDREG != 0) {
                return None;
            }
            if x & XCR0_AVX512 != 0 && (x & XCR0_AVX512 != XCR0_AVX512 || x & XCR0_AVX == 0) {
                return None;
            }
            Some(x)
        },
    }
}

/// Handles an `XSETBV` exit: the register index is the low half of `rcx`, the value
/// `edx:eax`. Only `XCR0` (index 0) is supported (`Unsupported` otherwise); a value
/// the guest may not load fails with `InvalidInput`. On success the value becomes the
/// guest's `XCR0` and the result is how far `RIP` advances.
pub fn handle_xsetbv(regs: &GeneralRegisters, xstate: &mut XState) -> (r: Result<u8, HvError>)
    ensures
        ({
            let index = regs.rcx as int % 0x1_0000_0000;
            let value = (regs.rdx as int % 0x1_0000_0000) * 0x1_0000_0000 + regs.rax as int
                % 0x1_0000_0000;
            &&& index != 0 ==> r == Err::<u8, HvError>(HvError::Unsupported) && *final(xstate) == *old(xstate)
            &&& index == 0 && !xcr0_valid(value as u64) ==> r == Err::<u8, HvError>(HvError::InvalidInput)
                && *final(xstate) == *old(xstate)
            &&& index == 0 && xcr0_valid(value as u64) ==> r == Ok::<u8, HvError>(VM_EXIT_INSTR_LEN_XSETBV)
                && *final(xstate) == (XState { guest_xcr0: value as u64, ..*old(xstate) })
        }),
{
    let index = crate::bits::low_u32(regs.rcx);
    let value = regs.get_edx_eax();
    if index != 0 {
        return Err(HvError::Unsupported);
    }
    match check_xcr0(value) {
        Some(x) => {
            xstate.guest_xcr0 = x;
            Ok(VM_EXIT_INSTR_LEN_XSETBV)
        },
        None => Err(HvError::InvalidInput),
    }
}

/// `CR0.PE`.
pub const CR0_PE: u64 = 1 << 0;

/// `CR0.NW`.
pub const CR0_NW: u64 = 1 << 29;

/// `CR0.CD`.
pub const CR0_CD: u64 = 1 << 30;

/// `CR0.PG`.
pub const CR0_PG: u64 = 1 << 31;

/// `CR4.VMXE`.
pub const CR4_VMXE: u64 = 1 << 13;

/// `EFER.LME`.
pub const EFER_LME: u64 = 1 << 8;

/// `EFER.LMA`.
pub const EFER_LMA: u64 = 1 << 10;

/// The values to write for a guest control register: the register itself, its read
/// shadow, and the guest/host mask.
#[derive(Clone, Copy, Debug, PartialEq, Eq, Structural)]
pub struct CrWrite {
    pub value: u64,
    pub read_shadow: u64,
    pub guest_host_mask: u64,
}

/// The write for `CR0 = val` under the fixed-bit MSRs: `NW` and `CD` are kept off,
/// `PE` and `PG` are the guest's to choose.
pub open spec fn cr0_write_spec(val: u64, fixed0: u64, fixed1: u64) -> CrWrite {
    let must0 = fixed1 & !(CR0_NW | CR0_CD);
    let must1 = fixed0 & !(CR0_PG | CR0_PE);
    CrWrite { value: (val & must0) | must1, read_shadow: val, guest_host_mask: must1 | !must0 }
}

/// The write for `CR4 = val` under the fixed-bit MSRs; `VMXE` stays set.
pub open spec fn cr4_write_spec(val: u64, fixed0: u64, fixed1: u64) -> CrWrite {
    let v = val | CR4_VMXE;
    CrWrite { value: (v & fixed1) | fixed0, read_shadow: v, guest_host_mask: fixed0 | !fixed1 }
}

/// Computes the write for guest `CR0` (`cr_idx` 0) or `CR4` (`cr_idx` 4).
pub fn cr_write(cr_idx: usize, val: u64, fixed0: u64, fixed1: u64) -> (r: CrWrite)
    requires
        cr_idx == 0 || cr_idx == 4,
    ensures
        cr_idx == 0 ==> r == cr0_write_spec(val, fixed0, fixed1),
        cr_idx == 4 ==> r == cr4_write_spec(val, fixed0, fixed1),
{
    if cr_idx == 0 {
        let must0 = fixed1 & !(CR0_NW | CR0_CD);
        let must1 = fixed0 & !(CR0_PG | CR0_PE);
        CrWrite { value: (val & must0) | must1, read_shadow: val, guest_host_mask: must1 | !must0 }
    } else {
        let v = val | CR4_VMXE;
        CrWrite { value: (v & fixed1) | fixed0, read_shadow: v, guest_host_mask: fixed0 | !fixed1 }
    }
}

/// The value the guest reads from a register with this read shadow and mask: the
/// shadow where the mask is set, the register elsewhere.
pub fn cr_guest_view(value: u64, read_shadow: u64, guest_host_mask: u64) -> (r: u64)
    ensures
        r == (read_shadow & guest_host_mask) | (value & !guest_host_mask),
{
    (read_shadow & guest_host_mask) | (value & !guest_host_mask)
}

/// Guest `EFER` after `CR0` becomes `cr0`: `LMA` follows `LME` while paging is on.
pub fn efer_after_cr0(efer: u64, cr0: u64) -> (r: u64)
    ensures
        r == (if cr0 & CR0_PG != 0 && efer & EFER_LME != 0 {
            efer | EFER_LMA
        } else {
            efer & !EFER_LMA
        }),
{
    if cr0 & CR0_PG != 0 && efer & EFER_LME != 0 {
        efer | EFER_LMA
    } else {
        efer & !EFER_LMA
    }
}

/// Whether a control register value keeps every bit that `fixed0` requires set and no
/// bit that `fixed1` requires clear.
pub open spec fn cr_valid_spec(value: u64, fixed0: u64, fixed1: u64) -> bool {
    value & fixed0 == fixed0 && value & !fixed1 == 0
}

/// Checks a control register value against its fixed-bit MSRs.
pub fn cr_is_valid(value: u64, fixed0: u64, fixed1: u64) -> (r: bool)
    ensures
        r == cr_valid_spec(value, fixed0, fixed1),
{
    value & fixed0 == fixed0 && value & !fixed1 == 0
}

/// Whether the capability MSR `cap` lets the bits `set` be 1 and the bits `clear` be 0.
pub open spec fn control_allowed(cap: u64, set: u32, clear: u32) -> bool {
    let allowed0 = (cap as int % 0x1_0000_0000) as u32;
    let allowed1 = (cap as int / 0x1_0000_0000) as u32;
    set & clear == 0 && allowed1 & set == set && allowed0 & clear == 0
}

/// The control value under capability `cap`: the bits fixed to 1, the requested bits,
/// and the flexible bits nobody asked about kept from `old_value`.
pub open spec fn control_value(cap: u64, old_value: u32, set: u32, clear: u32) -> u32 {
    let allowed0 = (cap as int % 0x1_0000_0000) as u32;
    let allowed1 = (cap as int / 0x1_0000_0000) as u32;
    let flexible = !allowed0 & allowed1;
    let unknown = flexible & !(set | clear);
    allowed0 | (unknown & old_value) | set
}

/// Computes an execution control from its capability MSR (allowed-0 settings in the low
/// half, allowed-1 settings in the high half): fails with `InvalidVmcsConfig` where a bit
/// is both set and cleared, a set bit may not be 1, or a cleared bit may not be 0.
pub fn set_control(cap: u64, old_value: u32, set: u32, clear: u32) -> (r: Result<u32, HvError>)
    ensures
        control_allowed(cap, set, clear) ==> r == Ok::<u32, HvError>(control_value(cap, old_value, set, clear)),
        !control_allowed(cap, set, clear) ==> r == Err::<u32, HvError>(HvError::InvalidVmcsConfig),
        r.is_ok() ==> r.unwrap() & set == set && r.unwrap() & clear == 0,
{
    let allowed0 = crate::bits::low_u32(cap);
    assert(cap >> 32u64 == cap / 0x1_0000_0000) by (bit_vector);
    let allowed1 = crate::bits::low_u32(cap >> 32u64);
    if set & clear != 0 {
        return Err(HvError::InvalidVmcsConfig);
    }
    if allowed1 & set != set {
        return Err(HvError::InvalidVmcsConfig);
    }
    if allowed0 & clear != 0 {
        return Err(HvError::InvalidVmcsConfig);
    }
    let flexible = !allowed0 & allowed1;
    let unknown = flexible & !(set | clear);
    let v = allowed0 | (unknown & old_value) | set;
    assert(v & set == set && v & clear == 0) by (bit_vector)
        requires
            v == allowed0 | (((!allowed0 & allowed1) & !(set | clear)) & old_value) | set,
            set & clear == 0,
            allowed0 & clear == 0,
    ;
    Ok(v)
}

/// A decoded control-register access exit.
#[derive(Clone, Copy, Debug, PartialEq, Eq, Structural)]
pub struct CrAccessInfo {
    /// The control register (bits 0 to 3).
    pub cr_number: u8,
    /// The access type (bits 4 and 5): 0 is a move to the register.
    pub access_type: u8,
    /// The general-purpose register (bits 8 to 11).
    pub gpr: u8,
}

/// Decodes the exit qualification of a control-register access.
pub fn cr_access_info(q: u64) -> (r: CrAccessInfo)
    ensures
        r.cr_number as int == q as int % 16,
        r.access_type as int == (q as int / 16) % 4,
        r.gpr as int == (q as int / 256) % 16,
{
    assert((q & 0xf) == q % 16 && ((q >> 4u64) & 3) == (q / 16) % 4 && ((q >> 8u64) & 0xf) == (q
        / 256) % 16) by (bit_vector);
    CrAccessInfo {
        cr_number: (q & 0xf) as u8,
        access_type: ((q >> 4u64) & 3) as u8,
        gpr: ((q >> 8u64) & 0xf) as u8,
    }
}

/// How to carry out a move to `CR0` or `CR4`.
#[derive(Clone, Copy, Debug, PartialEq, Eq, Structural)]
pub struct CrAccessPlan {
    /// The control register written (0 or 4).
    pub cr: usize,
    /// The values for the register, its read shadow and mask.
    pub write: CrWrite,
    /// The guest `EFER` after the write, where `CR0` changed with paging on.
    pub efer: Option<u64>,
    /// How far `RIP` advances.
    pub advance: u8,
}

/// The value a move to a control register takes from register `gpr`: `rsp` lives in
/// the guest-state area, the others in the register block.
pub open spec fn cr_source_value(regs: GeneralRegisters, gpr: u8, guest_rsp: u64) -> u64 {
    if gpr == 4 {
        guest_rsp
    } else {
        regs.reg(gpr as int)
    }
}

/// Plans a control-register access exit: a move to `CR0` or `CR4` takes its value from
/// the named register, passes the fixed-bit MSRs of that register, updates `EFER.LMA`
/// when `CR0.PG` is set, and advances `RIP` by 3. Any other access is not handled here.
pub fn handle_cr(
    regs: &GeneralRegisters,
    qualification: u64,
    guest_rsp: u64,
    guest_efer: u64,
    fixed0: u64,
    fixed1: u64,
) -> (r: Option<CrAccessPlan>)
    ensures
        ({
            let cr = qualification as int % 16;
            let ty = (qualification as int / 16) % 4;
            let gpr = ((qualification as int / 256) % 16) as u8;
            let val = cr_source_value(*regs, gpr, guest_rsp);
            &&& !(ty == 0 && (cr == 0 || cr == 4)) ==> r.is_none()
            &&& ty == 0 && cr == 0 ==> r == Some(CrAccessPlan {
                cr: 0,
                write: cr0_write_spec(val, fixed0, fixed1),
                efer: if val & CR0_PG != 0 {
                    Some(if guest_efer & EFER_LME != 0 {
                        guest_efer | EFER_LMA
                    } else {
                        guest_efer & !EFER_LMA
                    })
                } else {
                    None::<u64>
                },
                advance: VM_EXIT_INSTR_LEN_MV_TO_CR,
            })
            &&& ty == 0 && cr == 4 ==> r == Some(CrAccessPlan {
                cr: 4,
                write: cr4_write_spec(val, fixed0, fixed1),
                efer: None,
                advance: VM_EXIT_INSTR_LEN_MV_TO_CR,
            })
        }),
{
    let info = cr_access_info(qualification);
    if info.access_type != 0 || !(info.cr_number == 0 || info.cr_number == 4) {
        return None;
    }
    let val = if info.gpr == 4 {
        guest_rsp
    } else {
        regs.get_reg_of_index(info.gpr)
    };
    if info.cr_number == 0 {
        let efer = if val & CR0_PG != 0 {
            Some(efer_after_cr0(guest_efer, val))
        } else {
            None
        };
        Some(CrAccessPlan { cr: 0, write: cr_write(0, val, fixed0, fixed1), efer, advance: VM_EXIT_INSTR_LEN_MV_TO_CR })
    } else {
        Some(CrAccessPlan { cr: 4, write: cr_write(4, val, fixed0, fixed1), efer: None, advance: VM_EXIT_INSTR_LEN_MV_TO_CR })
    }
}

} // verus!
