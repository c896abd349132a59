//! The AMD-V virtual machine control block (VMCB): a 4 KiB page with a 1 KiB control
//! area at offset 0 and a 3 KiB state-save area at offset `0x400`, each field at a
//! fixed byte offset and stored little-endian.
use vstd::prelude::*;

use crate::error::HvError;

verus! {

/// Size of the whole block.
pub const VMCB_SIZE: usize = 0x1000;

/// Size of the control area, which starts the block.
pub const CONTROL_AREA_SIZE: usize = 0x400;

/// Offset of the state-save area.
pub const STATE_AREA_OFFSET: usize = 0x400;

/// Size of the state-save area.
pub const STATE_AREA_SIZE: usize = 0xC00;

/// Offset of the CR read/write intercept vector (4 bytes).
pub const INTERCEPT_CR: usize = 0x000;

/// Offset of the DR read/write intercept vector (4 bytes).
pub const INTERCEPT_DR: usize = 0x004;

/// Offset of the exception intercept vector (4 bytes).
pub const INTERCEPT_EXCEPTIONS: usize = 0x008;

/// Offset of the miscellaneous intercept vector 3 (4 bytes).
pub const INTERCEPT_VECTOR3: usize = 0x00C;

/// Offset of the miscellaneous intercept vector 4 (4 bytes).
pub const INTERCEPT_VECTOR4: usize = 0x010;

/// Offset of the miscellaneous intercept vector 5 (4 bytes).
pub const INTERCEPT_VECTOR5: usize = 0x014;

/// Offset of the pause filter threshold (2 bytes).
pub const PAUSE_FILTER_THRESH: usize = 0x03C;

/// Offset of the pause filter count (2 bytes).
pub const PAUSE_FILTER_COUNT: usize = 0x03E;

/// Offset of the physical address of the I/O permission map (8 bytes).
pub const IOPM_BASE_PA: usize = 0x040;

/// Offset of the physical address of the MSR permission map (8 bytes).
pub const MSRPM_BASE_PA: usize = 0x048;

/// Offset of the TSC offset (8 bytes).
pub const TSC_OFFSET: usize = 0x050;

/// Offset of the guest address-space identifier (4 bytes).
pub const GUEST_ASID: usize = 0x058;

/// Offset of the TLB control (1 bytes).
pub const TLB_CONTROL: usize = 0x05C;

/// Offset of the virtual interrupt control (4 bytes).
pub const INT_CONTROL: usize = 0x060;

/// Offset of the virtual interrupt vector (4 bytes).
pub const INT_VECTOR: usize = 0x064;

/// Offset of the interrupt shadow state (4 bytes).
pub const INT_STATE: usize = 0x068;

/// Offset of the exit code (8 bytes).
pub const EXIT_CODE: usize = 0x070;

/// Offset of the first exit information word (8 bytes).
pub const EXIT_INFO_1: usize = 0x078;

/// Offset of the second exit information word (8 bytes).
pub const EXIT_INFO_2: usize = 0x080;

/// Offset of the event pending at exit (4 bytes).
pub const EXIT_INT_INFO: usize = 0x088;

/// Offset of the error code of the event pending at exit (4 bytes).
pub const EXIT_INT_INFO_ERR: usize = 0x08C;

/// Offset of the nested paging control (8 bytes).
pub const NESTED_CTL: usize = 0x090;

/// Offset of the AVIC APIC-access base address (8 bytes).
pub const AVIC_VAPIC_BAR: usize = 0x098;

/// Offset of the guest-physical address of the GHCB (8 bytes).
pub const GHCB_GPA: usize = 0x0A0;

/// Offset of the event injection (4 bytes).
pub const EVENT_INJ: usize = 0x0A8;

/// Offset of the error code of the injected event (4 bytes).
pub const EVENT_INJ_ERR: usize = 0x0AC;

/// Offset of the root of the nested page table (8 bytes).
pub const NESTED_CR3: usize = 0x0B0;

/// Offset of the LBR virtualization and virtual VMLOAD/VMSAVE (8 bytes).
pub const VIRT_EXT: usize = 0x0B8;

/// Offset of the clean bits (4 bytes).
pub const CLEAN_BITS: usize = 0x0C0;

/// Offset of the address of the next sequential instruction (8 bytes).
pub const NEXT_RIP: usize = 0x0C8;

/// Offset of the number of fetched instruction bytes (1 bytes).
pub const INSN_LEN: usize = 0x0D0;

/// Offset of the fetched instruction bytes (15 bytes).
pub const INSN_BYTES: usize = 0x0D1;

/// Offset of a segment's selector inside its 16-byte record.
pub const SEG_SELECTOR: usize = 0x0;

/// Offset of a segment's attributes inside its 16-byte record.
pub const SEG_ATTR: usize = 0x2;

/// Offset of a segment's limit inside its 16-byte record.
pub const SEG_LIMIT: usize = 0x4;

/// Offset of a segment's base inside its 16-byte record.
pub const SEG_BASE: usize = 0x8;

/// Offset of the ES segment (16 bytes), counted from the start of the block.
pub const ES: usize = 0x400;

/// Offset of the CS segment (16 bytes), counted from the start of the block.
pub const CS: usize = 0x410;

/// Offset of the SS segment (16 bytes), counted from the start of the block.
pub const SS: usize = 0x420;

/// Offset of the DS segment (16 bytes), counted from the start of the block.
pub const DS: usize = 0x430;

/// Offset of the FS segment (16 bytes), counted from the start of the block.
pub const FS: usize = 0x440;

/// Offset of the GS segment (16 bytes), counted from the start of the block.
pub const GS: usize = 0x450;

/// Offset of the GDTR segment (16 bytes), counted from the start of the block.
pub const GDTR: usize = 0x460;

/// Offset of the LDTR segment (16 bytes), counted from the start of the block.
pub const LDTR: usize = 0x470;

/// Offset of the IDTR segment (16 bytes), counted from the start of the block.
pub const IDTR: usize = 0x480;

/// Offset of the TR segment (16 bytes), counted from the start of the block.
pub const TR: usize = 0x490;

/// Offset of the current privilege level (1 bytes), counted from the start of the block.
pub const CPL: usize = 0x4CB;

/// Offset of the guest EFER (8 bytes), counted from the start of the block.
pub const EFER: usize = 0x4D0;

/// Offset of the guest CR4 (8 bytes), counted from the start of the block.
pub const CR4: usize = 0x548;

/// Offset of the guest CR3 (8 bytes), counted from the start of the block.
pub const CR3: usize = 0x550;

/// Offset of the guest CR0 (8 bytes), counted from the start of the block.
pub const CR0: usize = 0x558;

/// Offset of the guest DR7 (8 bytes), counted from the start of the block.
pub const DR7: usize = 0x560;

/// Offset of the guest DR6 (8 bytes), counted from the start of the block.
pub const DR6: usize = 0x568;

/// Offset of the guest RFLAGS (8 bytes), counted from the start of the block.
pub const RFLAGS: usize = 0x570;

/// Offset of the guest RIP (8 bytes), counted from the start of the block.
pub const RIP: usize = 0x578;

/// Offset of the guest RSP (8 bytes), counted from the start of the block.
pub const RSP: usize = 0x5D8;

/// Offset of the supervisor shadow-stack control (8 bytes), counted from the start of the block.
pub const S_CET: usize = 0x5E0;

/// Offset of the shadow-stack pointer (8 bytes), counted from the start of the block.
pub const SSP: usize = 0x5E8;

/// Offset of the interrupt shadow-stack table address (8 bytes), counted from the start of the block.
pub const ISST_ADDR: usize = 0x5F0;

/// Offset of the guest RAX (8 bytes), counted from the start of the block.
pub const RAX: usize = 0x5F8;

/// Offset of the STAR MSR (8 bytes), counted from the start of the block.
pub const STAR: usize = 0x600;

/// Offset of the LSTAR MSR (8 bytes), counted from the start of the block.
pub const LSTAR: usize = 0x608;

/// Offset of the CSTAR MSR (8 bytes), counted from the start of the block.
pub const CSTAR: usize = 0x610;

/// Offset of the SFMASK MSR (8 bytes), counted from the start of the block.
pub const SFMASK: usize = 0x618;

/// Offset of the KERNEL_GS_BASE MSR (8 bytes), counted from the start of the block.
pub const KERNEL_GS_BASE: usize = 0x620;

/// Offset of the SYSENTER_CS MSR (8 bytes), counted from the start of the block.
pub const SYSENTER_CS: usize = 0x628;

/// Offset of the SYSENTER_ESP MSR (8 bytes), counted from the start of the block.
pub const SYSENTER_ESP: usize = 0x630;

/// Offset of the SYSENTER_EIP MSR (8 bytes), counted from the start of the block.
pub const SYSENTER_EIP: usize = 0x638;

/// Offset of the guest CR2 (8 bytes), counted from the start of the block.
pub const CR2: usize = 0x640;

/// Offset of the guest PAT (8 bytes), counted from the start of the block.
pub const G_PAT: usize = 0x668;

/// Offset of the debug control MSR (8 bytes), counted from the start of the block.
pub const DBGCTL: usize = 0x670;

/// Offset of the last branch source (8 bytes), counted from the start of the block.
pub const BR_FROM: usize = 0x678;

/// Offset of the last branch target (8 bytes), counted from the start of the block.
pub const BR_TO: usize = 0x680;

/// Offset of the last exception source (8 bytes), counted from the start of the block.
pub const LAST_EXCP_FROM: usize = 0x688;

/// Offset of the last exception target (8 bytes), counted from the start of the block.
pub const LAST_EXCP_TO: usize = 0x690;

/// The layout of the block: every field lies inside its area, and the fields, in
/// the order of their offsets, do not overlap.
pub proof fn lemma_vmcb_layout()
    ensures
        CONTROL_AREA_SIZE + STATE_AREA_SIZE == VMCB_SIZE,
        STATE_AREA_OFFSET == CONTROL_AREA_SIZE,
        INTERCEPT_CR + 4 <= CONTROL_AREA_SIZE,
        INTERCEPT_DR + 4 <= CONTROL_AREA_SIZE,
        INTERCEPT_EXCEPTIONS + 4 <= CONTROL_AREA_SIZE,
        INTERCEPT_VECTOR3 + 4 <= CONTROL_AREA_SIZE,
        INTERCEPT_VECTOR4 + 4 <= CONTROL_AREA_SIZE,
        INTERCEPT_VECTOR5 + 4 <= CONTROL_AREA_SIZE,
        PAUSE_FILTER_THRESH + 2 <= CONTROL_AREA_SIZE,
        PAUSE_FILTER_COUNT + 2 <= CONTROL_AREA_SIZE,
        IOPM_BASE_PA + 8 <= CONTROL_AREA_SIZE,
        MSRPM_BASE_PA + 8 <= CONTROL_AREA_SIZE,
        TSC_OFFSET + 8 <= CONTROL_AREA_SIZE,
        GUEST_ASID + 4 <= CONTROL_AREA_SIZE,
        TLB_CONTROL + 1 <= CONTROL_AREA_SIZE,
        INT_CONTROL + 4 <= CONTROL_AREA_SIZE,
        INT_VECTOR + 4 <= CONTROL_AREA_SIZE,
        INT_STATE + 4 <= CONTROL_AREA_SIZE,
        EXIT_CODE + 8 <= CONTROL_AREA_SIZE,
        EXIT_INFO_1 + 8 <= CONTROL_AREA_SIZE,
        EXIT_INFO_2 + 8 <= CONTROL_AREA_SIZE,
        EXIT_INT_INFO + 4 <= CONTROL_AREA_SIZE,
        EXIT_INT_INFO_ERR + 4 <= CONTROL_AREA_SIZE,
        NESTED_CTL + 8 <= CONTROL_AREA_SIZE,
        AVIC_VAPIC_BAR + 8 <= CONTROL_AREA_SIZE,
        GHCB_GPA + 8 <= CONTROL_AREA_SIZE,
        EVENT_INJ + 4 <= CONTROL_AREA_SIZE,
        EVENT_INJ_ERR + 4 <= CONTROL_AREA_SIZE,
        NESTED_CR3 + 8 <= CONTROL_AREA_SIZE,
        VIRT_EXT + 8 <= CONTROL_AREA_SIZE,
        CLEAN_BITS + 4 <= CONTROL_AREA_SIZE,
        NEXT_RIP + 8 <= CONTROL_AREA_SIZE,
        INSN_LEN + 1 <= CONTROL_AREA_SIZE,
        INSN_BYTES + 15 <= CONTROL_AREA_SIZE,
        STATE_AREA_OFFSET <= ES && ES + 16 <= VMCB_SIZE,
        STATE_AREA_OFFSET <= CS && CS + 16 <= VMCB_SIZE,
        STATE_AREA_OFFSET <= SS && SS + 16 <= VMCB_SIZE,
        STATE_AREA_OFFSET <= DS && DS + 16 <= VMCB_SIZE,
        STATE_AREA_OFFSET <= FS && FS + 16 <= VMCB_SIZE,
        STATE_AREA_OFFSET <= GS && GS + 16 <= VMCB_SIZE,
        STATE_AREA_OFFSET <= GDTR && GDTR + 16 <= VMCB_SIZE,
        STATE_AREA_OFFSET <= LDTR && LDTR + 16 <= VMCB_SIZE,
        STATE_AREA_OFFSET <= IDTR && IDTR + 16 <= VMCB_SIZE,
        STATE_AREA_OFFSET <= TR && TR + 16 <= VMCB_SIZE,
        STATE_AREA_OFFSET <= CPL && CPL + 1 <= VMCB_SIZE,
        STATE_AREA_OFFSET <= EFER && EFER + 8 <= VMCB_SIZE,
        STATE_AREA_OFFSET <= CR4 && CR4 + 8 <= VMCB_SIZE,
        STATE_AREA_OFFSET <= CR3 && CR3 + 8 <= VMCB_SIZE,
        STATE_AREA_OFFSET <= CR0 && CR0 + 8 <= VMCB_SIZE,
        STATE_AREA_OFFSET <= DR7 && DR7 + 8 <= VMCB_SIZE,
        STATE_AREA_OFFSET <= DR6 && DR6 + 8 <= VMCB_SIZE,
        STATE_AREA_OFFSET <= RFLAGS && RFLAGS + 8 <= VMCB_SIZE,
        STATE_AREA_OFFSET <= RIP && RIP + 8 <= VMCB_SIZE,
        STATE_AREA_OFFSET <= RSP && RSP + 8 <= VMCB_SIZE,
        STATE_AREA_OFFSET <= S_CET && S_CET + 8 <= VMCB_SIZE,
        STATE_AREA_OFFSET <= SSP && SSP + 8 <= VMCB_SIZE,
        STATE_AREA_OFFSET <= ISST_ADDR && ISST_ADDR + 8 <= VMCB_SIZE,
        STATE_AREA_OFFSET <= RAX && RAX + 8 <= VMCB_SIZE,
        STATE_AREA_OFFSET <= STAR && STAR + 8 <= VMCB_SIZE,
        STATE_AREA_OFFSET <= LSTAR && LSTAR + 8 <= VMCB_SIZE,
        STATE_AREA_OFFSET <= CSTAR && CSTAR + 8 <= VMCB_SIZE,
        STATE_AREA_OFFSET <= SFMASK && SFMASK + 8 <= VMCB_SIZE,
        STATE_AREA_OFFSET <= KERNEL_GS_BASE && KERNEL_GS_BASE + 8 <= VMCB_SIZE,
        STATE_AREA_OFFSET <= SYSENTER_CS && SYSENTER_CS + 8 <= VMCB_SIZE,
        STATE_AREA_OFFSET <= SYSENTER_ESP && SYSENTER_ESP + 8 <= VMCB_SIZE,
        STATE_AREA_OFFSET <= SYSENTER_EIP && SYSENTER_EIP + 8 <= VMCB_SIZE,
        STATE_AREA_OFFSET <= CR2 && CR2 + 8 <= VMCB_SIZE,
        STATE_AREA_OFFSET <= G_PAT && G_PAT + 8 <= VMCB_SIZE,
        STATE_AREA_OFFSET <= DBGCTL && DBGCTL + 8 <= VMCB_SIZE,
        STATE_AREA_OFFSET <= BR_FROM && BR_FROM + 8 <= VMCB_SIZE,
        STATE_AREA_OFFSET <= BR_TO && BR_TO + 8 <= VMCB_SIZE,
        STATE_AREA_OFFSET <= LAST_EXCP_FROM && LAST_EXCP_FROM + 8 <= VMCB_SIZE,
        STATE_AREA_OFFSET <= LAST_EXCP_TO && LAST_EXCP_TO + 8 <= VMCB_SIZE,
        INTERCEPT_CR + 4 <= INTERCEPT_DR,
        INTERCEPT_DR + 4 <= INTERCEPT_EXCEPTIONS,
        INTERCEPT_EXCEPTIONS + 4 <= INTERCEPT_VECTOR3,
        INTERCEPT_VECTOR3 + 4 <= INTERCEPT_VECTOR4,
        INTERCEPT_VECTOR4 + 4 <= INTERCEPT_VECTOR5,
        INTERCEPT_VECTOR5 + 4 <= PAUSE_FILTER_THRESH,
        PAUSE_FILTER_THRESH + 2 <= PAUSE_FILTER_COUNT,
        PAUSE_FILTER_COUNT + 2 <= IOPM_BASE_PA,
        IOPM_BASE_PA + 8 <= MSRPM_BASE_PA,
        MSRPM_BASE_PA + 8 <= TSC_OFFSET,
        TSC_OFFSET + 8 <= GUEST_ASID,
        GUEST_ASID + 4 <= TLB_CONTROL,
        TLB_CONTROL + 1 <= INT_CONTROL,
        INT_CONTROL + 4 <= INT_VECTOR,
        INT_VECTOR + 4 <= INT_STATE,
        INT_STATE + 4 <= EXIT_CODE,
        EXIT_CODE + 8 <= EXIT_INFO_1,
        EXIT_INFO_1 + 8 <= EXIT_INFO_2,
        EXIT_INFO_2 + 8 <= EXIT_INT_INFO,
        EXIT_INT_INFO + 4 <= EXIT_INT_INFO_ERR,
        EXIT_INT_INFO_ERR + 4 <= NESTED_CTL,
        NESTED_CTL + 8 <= AVIC_VAPIC_BAR,
        AVIC_VAPIC_BAR + 8 <= GHCB_GPA,
        GHCB_GPA + 8 <= EVENT_INJ,
        EVENT_INJ + 4 <= EVENT_INJ_ERR,
        EVENT_INJ_ERR + 4 <= NESTED_CR3,
        NESTED_CR3 + 8 <= VIRT_EXT,
        VIRT_EXT + 8 <= CLEAN_BITS,
        CLEAN_BITS + 4 <= NEXT_RIP,
        NEXT_RIP + 8 <= INSN_LEN,
        INSN_LEN + 1 <= INSN_BYTES,
        INSN_BYTES + 15 <= ES,
        ES + 16 <= CS,
        CS + 16 <= SS,
        SS + 16 <= DS,
        DS + 16 <= FS,
        FS + 16 <= GS,
        GS + 16 <= GDTR,
        GDTR + 16 <= LDTR,
        LDTR + 16 <= IDTR,
        IDTR + 16 <= TR,
        TR + 16 <= CPL,
        CPL + 1 <= EFER,
        EFER + 8 <= CR4,
        CR4 + 8 <= CR3,
        CR3 + 8 <= CR0,
        CR0 + 8 <= DR7,
        DR7 + 8 <= DR6,
        DR6 + 8 <= RFLAGS,
        RFLAGS + 8 <= RIP,
        RIP + 8 <= RSP,
        RSP + 8 <= S_CET,
        S_CET + 8 <= SSP,
        SSP + 8 <= ISST_ADDR,
        ISST_ADDR + 8 <= RAX,
        RAX + 8 <= STAR,
        STAR + 8 <= LSTAR,
        LSTAR + 8 <= CSTAR,
        CSTAR + 8 <= SFMASK,
        SFMASK + 8 <= KERNEL_GS_BASE,
        KERNEL_GS_BASE + 8 <= SYSENTER_CS,
        SYSENTER_CS + 8 <= SYSENTER_ESP,
        SYSENTER_ESP + 8 <= SYSENTER_EIP,
        SYSENTER_EIP + 8 <= CR2,
        CR2 + 8 <= G_PAT,
        G_PAT + 8 <= DBGCTL,
        DBGCTL + 8 <= BR_FROM,
        BR_FROM + 8 <= BR_TO,
        BR_TO + 8 <= LAST_EXCP_FROM,
        LAST_EXCP_FROM + 8 <= LAST_EXCP_TO,
{
}

/// Little-endian value of the byte at `off`.
pub open spec fn le_u8(s: Seq<u8>, off: int) -> u8 {
    s[off]
}

/// Little-endian value of the two bytes at `off`.
pub open spec fn le_u16(s: Seq<u8>, off: int) -> u16 {
    (s[off] as u16) | ((s[off + 1] as u16) << 8u16)
}

/// Little-endian value of the four bytes at `off`.
pub open spec fn le_u32(s: Seq<u8>, off: int) -> u32 {
    (s[off] as u32) | ((s[off + 1] as u32) << 8u32) | ((s[off + 2] as u32) << 16u32) | ((s[off
        + 3] as u32) << 24u32)
}

/// Little-endian value of the eight bytes at `off`.
pub open spec fn le_u64(s: Seq<u8>, off: int) -> u64 {
    (s[off] as u64) | ((s[off + 1] as u64) << 8u64) | ((s[off + 2] as u64) << 16u64) | ((s[off
        + 3] as u64) << 24u64) | ((s[off + 4] as u64) << 32u64) | ((s[off + 5] as u64) << 40u64)
        | ((s[off + 6] as u64) << 48u64) | ((s[off + 7] as u64) << 56u64)
}

/// Whether `a` and `b` agree outside the `w` bytes at `off`.
pub open spec fn same_outside(a: Seq<u8>, b: Seq<u8>, off: int, w: int) -> bool {
    a.len() == b.len() && forall|i: int| 0 <= i < a.len() && !(off <= i < off + w) ==> #[trigger] a[i]
        == b[i]
}

/// A virtual machine control block, held as its 4 KiB of bytes.
pub struct Vmcb {
    bytes: Vec<u8>,
}

impl View for Vmcb {
    type V = Seq<u8>;

    closed spec fn view(&self) -> Seq<u8> {
        self.bytes@
    }
}

impl Vmcb {
    /// The block holds exactly one page.
    pub open spec fn wf(&self) -> bool {
        self@.len() == VMCB_SIZE
    }

    /// A block of zeroes.
    pub fn new() -> (r: Self)
        ensures
            r.wf(),
            forall|i: int| 0 <= i < VMCB_SIZE ==> #[trigger] r@[i] == 0,
    {
        let mut bytes: Vec<u8> = Vec::new();
        let mut i: usize = 0;
        while i < VMCB_SIZE
            invariant
                i <= VMCB_SIZE,
                bytes@.len() == i,
                forall|j: int| 0 <= j < i ==> #[trigger] bytes@[j] == 0,
            decreases VMCB_SIZE - i,
        {
            bytes.push(0);
            i = i + 1;
        }
        Vmcb { bytes }
    }

    /// The bytes of the block, as the processor reads them.
    pub fn as_bytes(&self) -> (r: &[u8])
        ensures
            r@ == self@,
    {
        self.bytes.as_slice()
    }

    /// Zeroes the control area, keeping the state-save area.
    pub fn clear_control(&mut self)
        requires
            old(self).wf(),
        ensures
            final(self).wf(),
            forall|i: int| 0 <= i < CONTROL_AREA_SIZE ==> #[trigger] final(self)@[i] == 0,
            forall|i: int| CONTROL_AREA_SIZE <= i < VMCB_SIZE ==> #[trigger] final(self)@[i] == old(self)@[i],
    {
        let mut i: usize = 0;
        while i < CONTROL_AREA_SIZE
            invariant
                i <= CONTROL_AREA_SIZE,
                self.wf(),
                forall|j: int| 0 <= j < i ==> #[trigger] self@[j] == 0,
                forall|j: int| i <= j < VMCB_SIZE ==> #[trigger] self@[j] == old(self)@[j],
            decreases CONTROL_AREA_SIZE - i,
        {
            self.bytes.set(i, 0);
            i = i + 1;
        }
    }

    /// Reads the byte at `off`.
    pub fn read_u8(&self, off: usize) -> (r: u8)
        requires
            self.wf(),
            off + 1 <= VMCB_SIZE,
        ensures
            r == le_u8(self@, off as int),
    {
        self.bytes[off]
    }

    /// Reads the 16-bit field at `off`.
    pub fn read_u16(&self, off: usize) -> (r: u16)
        requires
            self.wf(),
            off + 2 <= VMCB_SIZE,
        ensures
            r == le_u16(self@, off as int),
    {
        (self.bytes[off] as u16) | ((self.bytes[off + 1] as u16) << 8u16)
    }

    /// Reads the 32-bit field at `off`.
    pub fn read_u32(&self, off: usize) -> (r: u32)
        requires
            self.wf(),
            off + 4 <= VMCB_SIZE,
        ensures
            r == le_u32(self@, off as int),
    {
        (self.bytes[off] as u32) | ((self.bytes[off + 1] as u32) << 8u32) | ((self.bytes[off
            + 2] as u32) << 16u32) | ((self.bytes[off + 3] as u32) << 24u32)
    }

    /// Reads the 64-bit field at `off`.
    pub fn read_u64(&self, off: usize) -> (r: u64)
        requires
            self.wf(),
            off + 8 <= VMCB_SIZE,
        ensures
            r == le_u64(self@, off as int),
    {
        (self.bytes[off] as u64) | ((self.bytes[off + 1] as u64) << 8u64) | ((self.bytes[off
            + 2] as u64) << 16u64) | ((self.bytes[off + 3] as u64) << 24u64) | ((self.bytes[off
            + 4] as u64) << 32u64) | ((self.bytes[off + 5] as u64) << 40u64) | ((self.bytes[off
            + 6] as u64) << 48u64) | ((self.bytes[off + 7] as u64) << 56u64)
    }

    /// Writes the byte at `off`, leaving the other bytes.
    pub fn write_u8(&mut self, off: usize, v: u8)
        requires
            old(self).wf(),
            off + 1 <= VMCB_SIZE,
        ensures
            final(self).wf(),
            le_u8(final(self)@, off as int) == v,
            same_outside(final(self)@, old(self)@, off as int, 1),
    {
        self.bytes.set(off, v);
    }

    /// Writes the 16-bit field at `off`, leaving the other bytes.
    pub fn write_u16(&mut self, off: usize, v: u16)
        requires
            old(self).wf(),
            off + 2 <= VMCB_SIZE,
        ensures
            final(self).wf(),
            le_u16(final(self)@, off as int) == v,
            same_outside(final(self)@, old(self)@, off as int, 2),
    {
        let b0 = (v & 0xff) as u8;
        let b1 = ((v >> 8u16) & 0xff) as u8;
        assert((b0 as u16) | ((b1 as u16) << 8u16) == v) by (bit_vector)
            requires
                b0 == (v & 0xff) as u8,
                b1 == ((v >> 8u16) & 0xff) as u8,
        ;
        self.bytes.set(off, b0);
        self.bytes.set(off + 1, b1);
    }

    /// Writes the 32-bit field at `off`, leaving the other bytes.
    pub fn write_u32(&mut self, off: usize, v: u32)
        requires
            old(self).wf(),
            off + 4 <= VMCB_SIZE,
        ensures
            final(self).wf(),
            le_u32(final(self)@, off as int) == v,
            same_outside(final(self)@, old(self)@, off as int, 4),
    {
        let b0 = (v & 0xff) as u8;
        let b1 = ((v >> 8u32) & 0xff) as u8;
        let b2 = ((v >> 16u32) & 0xff) as u8;
        let b3 = ((v >> 24u32) & 0xff) as u8;
        assert((b0 as u32) | ((b1 as u32) << 8u32) | ((b2 as u32) << 16u32) | ((b3 as u32)
            << 24u32) == v) by (bit_vector)
            requires
                b0 == (v & 0xff) as u8,
                b1 == ((v >> 8u32) & 0xff) as u8,
                b2 == ((v >> 16u32) & 0xff) as u8,
                b3 == ((v >> 24u32) & 0xff) as u8,
        ;
        self.bytes.set(off, b0);
        self.bytes.set(off + 1, b1);
        self.bytes.set(off + 2, b2);
        self.bytes.set(off + 3, b3);
    }

    /// Writes the 64-bit field at `off`, leaving the other bytes.
    pub fn write_u64(&mut self, off: usize, v: u64)
        requires
            old(self).wf(),
            off + 8 <= VMCB_SIZE,
        ensures
            final(self).wf(),
            le_u64(final(self)@, off as int) == v,
            same_outside(final(self)@, old(self)@, off as int, 8),
    {
        let b0 = (v & 0xff) as u8;
        let b1 = ((v >> 8u64) & 0xff) as u8;
        let b2 = ((v >> 16u64) & 0xff) as u8;
        let b3 = ((v >> 24u64) & 0xff) as u8;
        let b4 = ((v >> 32u64) & 0xff) as u8;
        let b5 = ((v >> 40u64) & 0xff) as u8;
        let b6 = ((v >> 48u64) & 0xff) as u8;
        let b7 = ((v >> 56u64) & 0xff) as u8;
        assert((b0 as u64) | ((b1 as u64) << 8u64) | ((b2 as u64) << 16u64) | ((b3 as u64)
            << 24u64) | ((b4 as u64) << 32u64) | ((b5 as u64) << 40u64) | ((b6 as u64) << 48u64)
            | ((b7 as u64) << 56u64) == v) by (bit_vector)
            requires
                b0 == (v & 0xff) as u8,
                b1 == ((v >> 8u64) & 0xff) as u8,
                b2 == ((v >> 16u64) & 0xff) as u8,
                b3 == ((v >> 24u64) & 0xff) as u8,
                b4 == ((v >> 32u64) & 0xff) as u8,
                b5 == ((v >> 40u64) & 0xff) as u8,
                b6 == ((v >> 48u64) & 0xff) as u8,
                b7 == ((v >> 56u64) & 0xff) as u8,
        ;
        self.bytes.set(off, b0);
        self.bytes.set(off + 1, b1);
        self.bytes.set(off + 2, b2);
        self.bytes.set(off + 3, b3);
        self.bytes.set(off + 4, b4);
        self.bytes.set(off + 5, b5);
        self.bytes.set(off + 6, b6);
        self.bytes.set(off + 7, b7);
    }
}

/// The instruction and event intercepts of the miscellaneous intercept vectors.
#[allow(non_camel_case_types)]
#[derive(Clone, Copy, Debug, PartialEq, Eq, Structural)]
pub enum SvmIntercept {
    INTR,
    NMI,
    SMI,
    INIT,
    VINTR,
    CR0_SEL_WRITE,
    IDTR_READ,
    GDTR_READ,
    LDTR_READ,
    TR_READ,
    IDTR_WRITE,
    GDTR_WRITE,
    LDTR_WRITE,
    TR_WRITE,
    RDTSC,
    RDPMC,
    PUSHF,
    POPF,
    CPUID,
    RSM,
    IRET,
    SWINT,
    INVD,
    PAUSE,
    HLT,
    INVLPG,
    INVLPGA,
    IOIO_PROT,
    MSR_PROT,
    TASK_SWITCH,
    FERR_FREEZE,
    SHUTDOWN,
    VMRUN,
    VMMCALL,
    VMLOAD,
    VMSAVE,
    STGI,
    CLGI,
    SKINIT,
    RDTSCP,
    ICEBP,
    WBINVD,
    MONITOR,
    MWAIT,
    MWAIT_CONDITIONAL,
    XSETBV,
    RDPRU,
    EFER_WRITE_TRAP,
    INVLPGB,
    INVLPGB_ILLEGAL,
    INVPCID,
    MCOMMIT,
    TLBSYNC,
}

/// The offset of the vector that holds intercept `i`, and its bit there.
pub open spec fn intercept_slot_spec(i: SvmIntercept) -> (usize, u32) {
    match i {
        SvmIntercept::INTR => (INTERCEPT_VECTOR3, 0),
        SvmIntercept::NMI => (INTERCEPT_VECTOR3, 1),
        SvmIntercept::SMI => (INTERCEPT_VECTOR3, 2),
        SvmIntercept::INIT => (INTERCEPT_VECTOR3, 3),
        SvmIntercept::VINTR => (INTERCEPT_VECTOR3, 4),
        SvmIntercept::CR0_SEL_WRITE => (INTERCEPT_VECTOR3, 5),
        SvmIntercept::IDTR_READ => (INTERCEPT_VECTOR3, 6),
        SvmIntercept::GDTR_READ => (INTERCEPT_VECTOR3, 7),
        SvmIntercept::LDTR_READ => (INTERCEPT_VECTOR3, 8),
        SvmIntercept::TR_READ => (INTERCEPT_VECTOR3, 9),
        SvmIntercept::IDTR_WRITE => (INTERCEPT_VECTOR3, 10),
        SvmIntercept::GDTR_WRITE => (INTERCEPT_VECTOR3, 11),
        SvmIntercept::LDTR_WRITE => (INTERCEPT_VECTOR3, 12),
        SvmIntercept::TR_WRITE => (INTERCEPT_VECTOR3, 13),
        SvmIntercept::RDTSC => (INTERCEPT_VECTOR3, 14),
        SvmIntercept::RDPMC => (INTERCEPT_VECTOR3, 15),
        SvmIntercept::PUSHF => (INTERCEPT_VECTOR3, 16),
        SvmIntercept::POPF => (INTERCEPT_VECTOR3, 17),
        SvmIntercept::CPUID => (INTERCEPT_VECTOR3, 18),
        SvmIntercept::RSM => (INTERCEPT_VECTOR3, 19),
        SvmIntercept::IRET => (INTERCEPT_VECTOR3, 20),
        SvmIntercept::SWINT => (INTERCEPT_VECTOR3, 21),
        SvmIntercept::INVD => (INTERCEPT_VECTOR3, 22),
        SvmIntercept::PAUSE => (INTERCEPT_VECTOR3, 23),
        SvmIntercept::HLT => (INTERCEPT_VECTOR3, 24),
        SvmIntercept::INVLPG => (INTERCEPT_VECTOR3, 25),
        SvmIntercept::INVLPGA => (INTERCEPT_VECTOR3, 26),
        SvmIntercept::IOIO_PROT => (INTERCEPT_VECTOR3, 27),
        SvmIntercept::MSR_PROT => (INTERCEPT_VECTOR3, 28),
        SvmIntercept::TASK_SWITCH => (INTERCEPT_VECTOR3, 29),
        SvmIntercept::FERR_FREEZE => (INTERCEPT_VECTOR3, 30),
        SvmIntercept::SHUTDOWN => (INTERCEPT_VECTOR3, 31),
        SvmIntercept::VMRUN => (INTERCEPT_VECTOR4, 0),
        SvmIntercept::VMMCALL => (INTERCEPT_VECTOR4, 1),
        SvmIntercept::VMLOAD => (INTERCEPT_VECTOR4, 2),
        SvmIntercept::VMSAVE => (INTERCEPT_VECTOR4, 3),
        SvmIntercept::STGI => (INTERCEPT_VECTOR4, 4),
        SvmIntercept::CLGI => (INTERCEPT_VECTOR4, 5),
        SvmIntercept::SKINIT => (INTERCEPT_VECTOR4, 6),
        SvmIntercept::RDTSCP => (INTERCEPT_VECTOR4, 7),
        SvmIntercept::ICEBP => (INTERCEPT_VECTOR4, 8),
        SvmIntercept::WBINVD => (INTERCEPT_VECTOR4, 9),
        SvmIntercept::MONITOR => (INTERCEPT_VECTOR4, 10),
        SvmIntercept::MWAIT => (INTERCEPT_VECTOR4, 11),
        SvmIntercept::MWAIT_CONDITIONAL => (INTERCEPT_VECTOR4, 12),
        SvmIntercept::XSETBV => (INTERCEPT_VECTOR4, 13),
        SvmIntercept::RDPRU => (INTERCEPT_VECTOR4, 14),
        SvmIntercept::EFER_WRITE_TRAP => (INTERCEPT_VECTOR4, 15),
        SvmIntercept::INVLPGB => (INTERCEPT_VECTOR5, 0),
        SvmIntercept::INVLPGB_ILLEGAL => (INTERCEPT_VECTOR5, 1),
        SvmIntercept::INVPCID => (INTERCEPT_VECTOR5, 2),
        SvmIntercept::MCOMMIT => (INTERCEPT_VECTOR5, 3),
        SvmIntercept::TLBSYNC => (INTERCEPT_VECTOR5, 4),
    }
}

/// The offset of the vector that holds intercept `i`, and its bit there.
pub fn intercept_slot(i: SvmIntercept) -> (r: (usize, u32))
    ensures
        r == intercept_slot_spec(i),
        r.0 == INTERCEPT_VECTOR3 || r.0 == INTERCEPT_VECTOR4 || r.0 == INTERCEPT_VECTOR5,
        r.1 < 32,
{
    match i {
        SvmIntercept::INTR => (INTERCEPT_VECTOR3, 0),
        SvmIntercept::NMI => (INTERCEPT_VECTOR3, 1),
        SvmIntercept::SMI => (INTERCEPT_VECTOR3, 2),
        SvmIntercept::INIT => (INTERCEPT_VECTOR3, 3),
        SvmIntercept::VINTR => (INTERCEPT_VECTOR3, 4),
        SvmIntercept::CR0_SEL_WRITE => (INTERCEPT_VECTOR3, 5),
        SvmIntercept::IDTR_READ => (INTERCEPT_VECTOR3, 6),
        SvmIntercept::GDTR_READ => (INTERCEPT_VECTOR3, 7),
        SvmIntercept::LDTR_READ => (INTERCEPT_VECTOR3, 8),
        SvmIntercept::TR_READ => (INTERCEPT_VECTOR3, 9),
        SvmIntercept::IDTR_WRITE => (INTERCEPT_VECTOR3, 10),
        SvmIntercept::GDTR_WRITE => (INTERCEPT_VECTOR3, 11),
        SvmIntercept::LDTR_WRITE => (INTERCEPT_VECTOR3, 12),
        SvmIntercept::TR_WRITE => (INTERCEPT_VECTOR3, 13),
        SvmIntercept::RDTSC => (INTERCEPT_VECTOR3, 14),
        SvmIntercept::RDPMC => (INTERCEPT_VECTOR3, 15),
        SvmIntercept::PUSHF => (INTERCEPT_VECTOR3, 16),
        SvmIntercept::POPF => (INTERCEPT_VECTOR3, 17),
        SvmIntercept::CPUID => (INTERCEPT_VECTOR3, 18),
        SvmIntercept::RSM => (INTERCEPT_VECTOR3, 19),
        SvmIntercept::IRET => (INTERCEPT_VECTOR3, 20),
        SvmIntercept::SWINT => (INTERCEPT_VECTOR3, 21),
        SvmIntercept::INVD => (INTERCEPT_VECTOR3, 22),
        SvmIntercept::PAUSE => (INTERCEPT_VECTOR3, 23),
        SvmIntercept::HLT => (INTERCEPT_VECTOR3, 24),
        SvmIntercept::INVLPG => (INTERCEPT_VECTOR3, 25),
        SvmIntercept::INVLPGA => (INTERCEPT_VECTOR3, 26),
        SvmIntercept::IOIO_PROT => (INTERCEPT_VECTOR3, 27),
        SvmIntercept::MSR_PROT => (INTERCEPT_VECTOR3, 28),
        SvmIntercept::TASK_SWITCH => (INTERCEPT_VECTOR3, 29),
        SvmIntercept::FERR_FREEZE => (INTERCEPT_VECTOR3, 30),
        SvmIntercept::SHUTDOWN => (INTERCEPT_VECTOR3, 31),
        SvmIntercept::VMRUN => (INTERCEPT_VECTOR4, 0),
        SvmIntercept::VMMCALL => (INTERCEPT_VECTOR4, 1),
        SvmIntercept::VMLOAD => (INTERCEPT_VECTOR4, 2),
        SvmIntercept::VMSAVE => (INTERCEPT_VECTOR4, 3),
        SvmIntercept::STGI => (INTERCEPT_VECTOR4, 4),
        SvmIntercept::CLGI => (INTERCEPT_VECTOR4, 5),
        SvmIntercept::SKINIT => (INTERCEPT_VECTOR4, 6),
        SvmIntercept::RDTSCP => (INTERCEPT_VECTOR4, 7),
        SvmIntercept::ICEBP => (INTERCEPT_VECTOR4, 8),
        SvmIntercept::WBINVD => (INTERCEPT_VECTOR4, 9),
        SvmIntercept::MONITOR => (INTERCEPT_VECTOR4, 10),
        SvmIntercept::MWAIT => (INTERCEPT_VECTOR4, 11),
        SvmIntercept::MWAIT_CONDITIONAL => (INTERCEPT_VECTOR4, 12),
        SvmIntercept::XSETBV => (INTERCEPT_VECTOR4, 13),
        SvmIntercept::RDPRU => (INTERCEPT_VECTOR4, 14),
        SvmIntercept::EFER_WRITE_TRAP => (INTERCEPT_VECTOR4, 15),
        SvmIntercept::INVLPGB => (INTERCEPT_VECTOR5, 0),
        SvmIntercept::INVLPGB_ILLEGAL => (INTERCEPT_VECTOR5, 1),
        SvmIntercept::INVPCID => (INTERCEPT_VECTOR5, 2),
        SvmIntercept::MCOMMIT => (INTERCEPT_VECTOR5, 3),
        SvmIntercept::TLBSYNC => (INTERCEPT_VECTOR5, 4),
    }
}

/// Information on the latest exit, as the processor left it in the control area.
#[derive(Clone, Copy, Debug, PartialEq, Eq, Structural)]
pub struct SvmExitInfo {
    /// The exit code.
    pub exit_code: u64,
    /// The first exit information word.
    pub exit_info_1: u64,
    /// The second exit information word.
    pub exit_info_2: u64,
    /// The guest `RIP` at the exit.
    pub guest_rip: u64,
    /// The address of the instruction after the one that exited.
    pub guest_next_rip: u64,
}

/// `CR0` of a guest that starts in real mode: `NW`, `CD` and `ET`.
pub const REAL_MODE_CR0: u64 = 0x6000_0010;

/// `EFER.SVME`.
pub const EFER_SVME: u64 = 1 << 12;

/// `V_INTR_MASKING` of the virtual interrupt control.
pub const V_INTR_MASKING: u32 = 1 << 24;

/// TLB control that flushes this guest's entries on entry.
pub const TLB_FLUSH_GUEST: u8 = 3;

/// `NP_ENABLE` of the nested paging control.
pub const NESTED_PAGING_ENABLE: u64 = 1;

/// Exception vector of the invalid-opcode fault (`#UD`).
pub const UD_VECTOR: u32 = 6;

/// Whether the 16-byte segment record at `seg` holds `selector`, `attr`, limit `limit`
/// and base `base`.
pub open spec fn segment_is(s: Seq<u8>, seg: int, selector: u16, attr: u16, limit: u32, base: u64) -> bool {
    &&& le_u16(s, seg + SEG_SELECTOR) == selector
    &&& le_u16(s, seg + SEG_ATTR) == attr
    &&& le_u32(s, seg + SEG_LIMIT) == limit
    &&& le_u64(s, seg + SEG_BASE) == base
}

/// Whether intercept `i` is set in the block `s`.
pub open spec fn intercept_set(s: Seq<u8>, i: SvmIntercept) -> bool {
    le_u32(s, intercept_slot_spec(i).0 as int) & (1u32 << intercept_slot_spec(i).1) != 0
}

/// The intercepts that a guest of this core always has.
pub open spec fn required_intercept(i: SvmIntercept) -> bool {
    i == SvmIntercept::NMI || i == SvmIntercept::CPUID || i == SvmIntercept::SHUTDOWN || i
        == SvmIntercept::VMRUN || i == SvmIntercept::VMMCALL || i == SvmIntercept::VMLOAD || i
        == SvmIntercept::VMSAVE || i == SvmIntercept::STGI || i == SvmIntercept::CLGI || i
        == SvmIntercept::SKINIT
}

/// Offset of the 16-byte record of each segment register.
pub open spec fn is_segment_offset(seg: usize) -> bool {
    seg == ES || seg == CS || seg == SS || seg == DS || seg == FS || seg == GS || seg == GDTR
        || seg == LDTR || seg == IDTR || seg == TR
}

/// Sets the segment record at `seg` to a flat real-mode segment: the given selector
/// and attributes, limit `0xFFFF`, base 0.
pub fn set_vmcb_segment(vmcb: &mut Vmcb, seg: usize, selector: u16, attr: u16)
    requires
        old(vmcb).wf(),
        is_segment_offset(seg),
    ensures
        final(vmcb).wf(),
        segment_is(final(vmcb)@, seg as int, selector, attr, 0xFFFF, 0),
        same_outside(final(vmcb)@, old(vmcb)@, seg as int, 16),
{
    vmcb.write_u16(seg + SEG_SELECTOR, selector);
    vmcb.write_u64(seg + SEG_BASE, 0);
    vmcb.write_u32(seg + SEG_LIMIT, 0xFFFF);
    vmcb.write_u16(seg + SEG_ATTR, attr);
}

impl Vmcb {
    /// Sets intercept `intc`, keeping every other bit of the block.
    pub fn set_intercept(&mut self, intc: SvmIntercept)
        requires
            old(self).wf(),
        ensures
            final(self).wf(),
            le_u32(final(self)@, intercept_slot_spec(intc).0 as int) == le_u32(
                old(self)@,
                intercept_slot_spec(intc).0 as int,
            ) | (1u32 << intercept_slot_spec(intc).1),
            same_outside(final(self)@, old(self)@, intercept_slot_spec(intc).0 as int, 4),
    {
        let (off, bit) = intercept_slot(intc);
        let v = self.read_u32(off);
        self.write_u32(off, v | (1u32 << bit));
    }

    /// Whether intercept `intc` is set.
    pub fn is_intercepted(&self, intc: SvmIntercept) -> (r: bool)
        requires
            self.wf(),
        ensures
            r == intercept_set(self@, intc),
    {
        let (off, bit) = intercept_slot(intc);
        self.read_u32(off) & (1u32 << bit) != 0
    }

    /// Sets the intercept of exception `vector`.
    pub fn set_exception_intercept(&mut self, vector: u32)
        requires
            old(self).wf(),
            vector < 32,
        ensures
            final(self).wf(),
            le_u32(final(self)@, INTERCEPT_EXCEPTIONS as int) == le_u32(
                old(self)@,
                INTERCEPT_EXCEPTIONS as int,
            ) | (1u32 << vector),
            same_outside(final(self)@, old(self)@, INTERCEPT_EXCEPTIONS as int, 4),
    {
        let v = self.read_u32(INTERCEPT_EXCEPTIONS);
        self.write_u32(INTERCEPT_EXCEPTIONS, v | (1u32 << vector));
    }

    /// The exit information that the processor left in the block.
    pub fn exit_info(&self) -> (r: SvmExitInfo)
        requires
            self.wf(),
        ensures
            r.exit_code == le_u64(self@, EXIT_CODE as int),
            r.exit_info_1 == le_u64(self@, EXIT_INFO_1 as int),
            r.exit_info_2 == le_u64(self@, EXIT_INFO_2 as int),
            r.guest_rip == le_u64(self@, RIP as int),
            r.guest_next_rip == le_u64(self@, NEXT_RIP as int),
    {
        SvmExitInfo {
            exit_code: self.read_u64(EXIT_CODE),
            exit_info_1: self.read_u64(EXIT_INFO_1),
            exit_info_2: self.read_u64(EXIT_INFO_2),
            guest_rip: self.read_u64(RIP),
            guest_next_rip: self.read_u64(NEXT_RIP),
        }
    }

    /// Writes guest control register `cr_idx` (0, 3 or 4); fails with `InvalidInput`
    /// for any other register.
    pub fn set_cr(&mut self, cr_idx: usize, val: u64) -> (r: Result<(), HvError>)
        requires
            old(self).wf(),
        ensures
            final(self).wf(),
            r.is_ok() == (cr_idx == 0 || cr_idx == 3 || cr_idx == 4),
            r.is_err() ==> r == Err::<(), HvError>(HvError::InvalidInput) && final(self)@ == old(self)@,
            cr_idx == 0 ==> le_u64(final(self)@, CR0 as int) == val && same_outside(final(self)@, old(self)@, CR0 as int, 8),
            cr_idx == 3 ==> le_u64(final(self)@, CR3 as int) == val && same_outside(final(self)@, old(self)@, CR3 as int, 8),
            cr_idx == 4 ==> le_u64(final(self)@, CR4 as int) == val && same_outside(final(self)@, old(self)@, CR4 as int, 8),
    {
        match cr_idx {
            0 => self.write_u64(CR0, val),
            3 => self.write_u64(CR3, val),
            4 => self.write_u64(CR4, val),
            _ => return Err(HvError::InvalidInput),
        }
        Ok(())
    }

    /// Reads guest control register `cr_idx` (0, 3 or 4).
    pub fn cr(&self, cr_idx: usize) -> (r: u64)
        requires
            self.wf(),
            cr_idx == 0 || cr_idx == 3 || cr_idx == 4,
        ensures
            cr_idx == 0 ==> r == le_u64(self@, CR0 as int),
            cr_idx == 3 ==> r == le_u64(self@, CR3 as int),
            cr_idx == 4 ==> r == le_u64(self@, CR4 as int),
    {
        match cr_idx {
            0 => self.read_u64(CR0),
            3 => self.read_u64(CR3),
            _ => self.read_u64(CR4),
        }
    }

    /// Fills the state-save area for a guest that starts in real mode at `entry`:
    /// flat 64 KiB segments, `CR0 = NW|CD|ET`, `CR4 = 0`, `RFLAGS = 2`, `DR7 = 0x400`,
    /// `EFER.SVME` set and the host's PAT.
    #[verifier::rlimit(60)]
    pub fn setup_vmcb_guest(&mut self, entry: u64, host_pat: u64)
        requires
            old(self).wf(),
        ensures
            final(self).wf(),
            le_u64(final(self)@, CR0 as int) == REAL_MODE_CR0,
            le_u64(final(self)@, CR4 as int) == 0,
            le_u64(final(self)@, CR3 as int) == 0,
            segment_is(final(self)@, CS as int, 0, 0x9b, 0xFFFF, 0),
            segment_is(final(self)@, DS as int, 0, 0x93, 0xFFFF, 0),
            segment_is(final(self)@, ES as int, 0, 0x93, 0xFFFF, 0),
            segment_is(final(self)@, FS as int, 0, 0x93, 0xFFFF, 0),
            segment_is(final(self)@, GS as int, 0, 0x93, 0xFFFF, 0),
            segment_is(final(self)@, SS as int, 0, 0x93, 0xFFFF, 0),
            segment_is(final(self)@, LDTR as int, 0, 0x82, 0xFFFF, 0),
            segment_is(final(self)@, TR as int, 0, 0x8b, 0xFFFF, 0),
            le_u64(final(self)@, GDTR + SEG_BASE) == 0,
            le_u32(final(self)@, GDTR + SEG_LIMIT) == 0xFFFF,
            le_u64(final(self)@, IDTR + SEG_BASE) == 0,
            le_u32(final(self)@, IDTR + SEG_LIMIT) == 0xFFFF,
            le_u64(final(self)@, DR7 as int) == 0x400,
            le_u64(final(self)@, DR6 as int) == 0xffff_0ff0,
            le_u64(final(self)@, RSP as int) == 0,
            le_u64(final(self)@, RIP as int) == entry,
            le_u64(final(self)@, RFLAGS as int) == 2,
            le_u64(final(self)@, EFER as int) == EFER_SVME,
            le_u64(final(self)@, G_PAT as int) == host_pat,
            forall|i: int| 0 <= i < CONTROL_AREA_SIZE ==> #[trigger] final(self)@[i] == old(self)@[i],
    {
        self.write_u64(CR0, REAL_MODE_CR0);
        self.write_u64(CR4, 0);
        set_vmcb_segment(self, CS, 0, 0x9b);
        set_vmcb_segment(self, DS, 0, 0x93);
        set_vmcb_segment(self, ES, 0, 0x93);
        set_vmcb_segment(self, FS, 0, 0x93);
        set_vmcb_segment(self, GS, 0, 0x93);
        set_vmcb_segment(self, SS, 0, 0x93);
        set_vmcb_segment(self, LDTR, 0, 0x82);
        set_vmcb_segment(self, TR, 0, 0x8b);
        self.write_u64(GDTR + SEG_BASE, 0);
        self.write_u32(GDTR + SEG_LIMIT, 0xFFFF);
        self.write_u64(IDTR + SEG_BASE, 0);
        self.write_u32(IDTR + SEG_LIMIT, 0xFFFF);
        self.write_u64(CR3, 0);
        self.write_u64(DR7, 0x400);
        self.write_u64(RSP, 0);
        self.write_u64(RIP, entry);
        self.write_u64(RFLAGS, 2);
        self.write_u64(DR6, 0xffff_0ff0);
        self.write_u64(EFER, EFER_SVME);
        self.write_u64(G_PAT, host_pat);
    }

    /// Fills the control area: nested paging on with root `npt_root`, guest ASID 1,
    /// clean bits 0, a guest TLB flush, `V_INTR_MASKING`, the permission maps at
    /// `iopm_pa` and `msrpm_pa`, the intercepts this core needs and that of `#UD`.
    #[verifier::rlimit(60)]
    pub fn setup_vmcb_control(&mut self, npt_root: u64, iopm_pa: u64, msrpm_pa: u64)
        requires
            old(self).wf(),
        ensures
            final(self).wf(),
            le_u64(final(self)@, NESTED_CTL as int) == le_u64(old(self)@, NESTED_CTL as int)
                | NESTED_PAGING_ENABLE,
            le_u32(final(self)@, GUEST_ASID as int) == 1,
            le_u64(final(self)@, NESTED_CR3 as int) == npt_root,
            le_u32(final(self)@, CLEAN_BITS as int) == 0,
            le_u8(final(self)@, TLB_CONTROL as int) == TLB_FLUSH_GUEST,
            le_u32(final(self)@, INT_CONTROL as int) == V_INTR_MASKING,
            le_u64(final(self)@, IOPM_BASE_PA as int) == iopm_pa,
            le_u64(final(self)@, MSRPM_BASE_PA as int) == msrpm_pa,
            le_u32(final(self)@, INTERCEPT_EXCEPTIONS as int) == le_u32(
                old(self)@,
                INTERCEPT_EXCEPTIONS as int,
            ) | (1u32 << UD_VECTOR),
            forall|i: SvmIntercept| #[trigger] required_intercept(i) ==> intercept_set(final(self)@, i),
            forall|i: int| STATE_AREA_OFFSET <= i < VMCB_SIZE ==> #[trigger] final(self)@[i] == old(self)@[i],
    {
        let nested = self.read_u64(NESTED_CTL);
        self.write_u64(NESTED_CTL, nested | NESTED_PAGING_ENABLE);
        self.write_u32(GUEST_ASID, 1);
        self.write_u64(NESTED_CR3, npt_root);
        self.write_u32(CLEAN_BITS, 0);
        self.write_u8(TLB_CONTROL, TLB_FLUSH_GUEST);
        self.write_u32(INT_CONTROL, V_INTR_MASKING);
        self.set_exception_intercept(UD_VECTOR);
        let ghost before = self@;
        self.set_intercept(SvmIntercept::NMI);
        self.set_intercept(SvmIntercept::CPUID);
        self.set_intercept(SvmIntercept::SHUTDOWN);
        let ghost mid = self@;
        assert(le_u32(mid, INTERCEPT_VECTOR3 as int) == le_u32(before, INTERCEPT_VECTOR3 as int)
            | (1u32 << 1u32) | (1u32 << 18u32) | (1u32 << 31u32));
        self.set_intercept(SvmIntercept::VMRUN);
        self.set_intercept(SvmIntercept::VMMCALL);
        self.set_intercept(SvmIntercept::VMLOAD);
        self.set_intercept(SvmIntercept::VMSAVE);
        self.set_intercept(SvmIntercept::STGI);
        self.set_intercept(SvmIntercept::CLGI);
        self.set_intercept(SvmIntercept::SKINIT);
        let ghost last = self@;
        assert(le_u32(last, INTERCEPT_VECTOR4 as int) == le_u32(mid, INTERCEPT_VECTOR4 as int)
            | (1u32 << 0u32) | (1u32 << 1u32) | (1u32 << 2u32) | (1u32 << 3u32) | (1u32 << 4u32)
            | (1u32 << 5u32) | (1u32 << 6u32));
        self.write_u64(IOPM_BASE_PA, iopm_pa);
        self.write_u64(MSRPM_BASE_PA, msrpm_pa);
        proof {
            let f = self@;
            let a = le_u32(before, INTERCEPT_VECTOR3 as int);
            let b = le_u32(mid, INTERCEPT_VECTOR4 as int);
            assert(le_u32(f, INTERCEPT_VECTOR3 as int) == le_u32(mid, INTERCEPT_VECTOR3 as int));
            assert(le_u32(f, INTERCEPT_VECTOR4 as int) == le_u32(last, INTERCEPT_VECTOR4 as int));
            assert((a | (1u32 << 1u32) | (1u32 << 18u32) | (1u32 << 31u32)) & (1u32 << 1u32) != 0
                && (a | (1u32 << 1u32) | (1u32 << 18u32) | (1u32 << 31u32)) & (1u32 << 18u32) != 0
                && (a | (1u32 << 1u32) | (1u32 << 18u32) | (1u32 << 31u32)) & (1u32 << 31u32) != 0)
                by (bit_vector);
            assert((b | (1u32 << 0u32) | (1u32 << 1u32) | (1u32 << 2u32) | (1u32 << 3u32) | (1u32
                << 4u32) | (1u32 << 5u32) | (1u32 << 6u32)) & 0x7f == 0x7f) by (bit_vector);
            let c = b | (1u32 << 0u32) | (1u32 << 1u32) | (1u32 << 2u32) | (1u32 << 3u32) | (1u32
                << 4u32) | (1u32 << 5u32) | (1u32 << 6u32);
            assert(c & 0x7f == 0x7f ==> c & (1u32 << 0u32) != 0 && c & (1u32 << 1u32) != 0 && c & (
            1u32 << 2u32) != 0 && c & (1u32 << 3u32) != 0 && c & (1u32 << 4u32) != 0 && c & (1u32
                << 5u32) != 0 && c & (1u32 << 6u32) != 0) by (bit_vector);
        }
    }
}

/// `EVENTINJ.EV`: an error code is delivered.
pub const EVENT_INJ_EV: u32 = 1 << 11;

/// The interrupt shadow of the interrupt state.
pub const INT_STATE_SHADOW: u32 = 1 << 0;

/// `RFLAGS.IF`.
pub const RFLAGS_IF: u64 = 1 << 9;

impl Vmcb {
    /// Writes the event-injection field: the injection word `info`, with the error code
    /// and its flag where there is one.
    pub fn inject_event(&mut self, info: u32, error_code: Option<u32>)
        requires
            old(self).wf(),
        ensures
            final(self).wf(),
            le_u32(final(self)@, EVENT_INJ as int) == (if error_code.is_some() {
                info | EVENT_INJ_EV
            } else {
                info
            }),
            le_u32(final(self)@, EVENT_INJ_ERR as int) == (if error_code.is_some() {
                error_code.unwrap()
            } else {
                0
            }),
            same_outside(final(self)@, old(self)@, EVENT_INJ as int, 8),
    {
        match error_code {
            Some(e) => {
                self.write_u32(EVENT_INJ, info | EVENT_INJ_EV);
                self.write_u32(EVENT_INJ_ERR, e);
            },
            None => {
                self.write_u32(EVENT_INJ, info);
                self.write_u32(EVENT_INJ_ERR, 0);
            },
        }
    }

    /// Whether the guest accepts an interrupt: `RFLAGS.IF` set and no interrupt shadow.
    pub fn allow_interrupt(&self) -> (r: bool)
        requires
            self.wf(),
        ensures
            r == (le_u64(self@, RFLAGS as int) & RFLAGS_IF != 0 && le_u32(self@, INT_STATE as int)
                & INT_STATE_SHADOW == 0),
    {
        self.read_u64(RFLAGS) & RFLAGS_IF != 0 && self.read_u32(INT_STATE) & INT_STATE_SHADOW == 0
    }
}

} // verus!
