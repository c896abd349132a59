use vstd::prelude::*;

use crate::bits::{low_u16, low_u32, low_u8};

verus! {

/// The general-purpose register block saved and restored around guest entry.
///
/// The order of the fields follows the architectural register numbering, so that
/// index `i` of `get_reg_of_index` names register `i` of the instruction encoding.
/// Slot 4 stands for `rsp`, which lives in the control structure instead.
#[derive(Clone, Copy, Debug, PartialEq, Eq, Structural, Default)]
pub struct GeneralRegisters {
    pub rax: u64,
    pub rcx: u64,
    pub rdx: u64,
    pub rbx: u64,
    pub _unused_rsp: u64,
    pub rbp: u64,
    pub rsi: u64,
    pub rdi: u64,
    pub r8: u64,
    pub r9: u64,
    pub r10: u64,
    pub r11: u64,
    pub r12: u64,
    pub r13: u64,
    pub r14: u64,
    pub r15: u64,
}

/// Whether `i` names a register held in the block (every slot but `rsp`).
pub open spec fn valid_reg_index(i: int) -> bool {
    0 <= i < 16 && i != 4
}

/// The name of register `i` in the architectural numbering.
pub open spec fn register_name_spec(i: int) -> Seq<char> {
    if i == 0 {
        "rax"@
    } else if i == 1 {
        "rcx"@
    } else if i == 2 {
        "rdx"@
    } else if i == 3 {
        "rbx"@
    } else if i == 4 {
        "rsp"@
    } else if i == 5 {
        "rbp"@
    } else if i == 6 {
        "rsi"@
    } else if i == 7 {
        "rdi"@
    } else if i == 8 {
        "r8"@
    } else if i == 9 {
        "r9"@
    } else if i == 10 {
        "r10"@
    } else if i == 11 {
        "r11"@
    } else if i == 12 {
        "r12"@
    } else if i == 13 {
        "r13"@
    } else if i == 14 {
        "r14"@
    } else {
        "r15"@
    }
}

impl GeneralRegisters {
    /// Every register zero.
    pub open spec fn default_spec() -> GeneralRegisters {
        GeneralRegisters {
            rax: 0,
            rcx: 0,
            rdx: 0,
            rbx: 0,
            _unused_rsp: 0,
            rbp: 0,
            rsi: 0,
            rdi: 0,
            r8: 0,
            r9: 0,
            r10: 0,
            r11: 0,
            r12: 0,
            r13: 0,
            r14: 0,
            r15: 0,
        }
    }

    /// A block with every register zero.
    pub fn zeroed() -> (r: GeneralRegisters)
        ensures
            r == Self::default_spec(),
    {
        GeneralRegisters {
            rax: 0,
            rcx: 0,
            rdx: 0,
            rbx: 0,
            _unused_rsp: 0,
            rbp: 0,
            rsi: 0,
            rdi: 0,
            r8: 0,
            r9: 0,
            r10: 0,
            r11: 0,
            r12: 0,
            r13: 0,
            r14: 0,
            r15: 0,
        }
    }

    /// Names of the sixteen registers, indexed by their architectural number.
    pub const REGISTER_NAMES: [&'static str; 16] = [
        "rax", "rcx", "rdx", "rbx", "rsp", "rbp", "rsi", "rdi", "r8", "r9", "r10", "r11", "r12", "r13", "r14", "r15",
    ];

    /// Value of register `i`; slot 4 (`rsp`) reads as the unused placeholder.
    pub open spec fn reg(&self, i: int) -> u64 {
        if i == 0 {
            self.rax
        } else if i == 1 {
            self.rcx
        } else if i == 2 {
            self.rdx
        } else if i == 3 {
            self.rbx
        } else if i == 4 {
            self._unused_rsp
        } else if i == 5 {
            self.rbp
        } else if i == 6 {
            self.rsi
        } else if i == 7 {
            self.rdi
        } else if i == 8 {
            self.r8
        } else if i == 9 {
            self.r9
        } else if i == 10 {
            self.r10
        } else if i == 11 {
            self.r11
        } else if i == 12 {
            self.r12
        } else if i == 13 {
            self.r13
        } else if i == 14 {
            self.r14
        } else {
            self.r15
        }
    }

    /// The name of register `i`.
    pub fn register_name(i: u8) -> (r: &'static str)
        requires
            i < 16,
        ensures
            r@ == register_name_spec(i as int),
    {
        proof {
            reveal_strlit("rax");
            reveal_strlit("rcx");
            reveal_strlit("rdx");
            reveal_strlit("rbx");
            reveal_strlit("rsp");
            reveal_strlit("rbp");
            reveal_strlit("rsi");
            reveal_strlit("rdi");
            reveal_strlit("r8");
            reveal_strlit("r9");
            reveal_strlit("r10");
            reveal_strlit("r11");
            reveal_strlit("r12");
            reveal_strlit("r13");
            reveal_strlit("r14");
            reveal_strlit("r15");
        }
        match i {
            0 => "rax",
            1 => "rcx",
            2 => "rdx",
            3 => "rbx",
            4 => "rsp",
            5 => "rbp",
            6 => "rsi",
            7 => "rdi",
            8 => "r8",
            9 => "r9",
            10 => "r10",
            11 => "r11",
            12 => "r12",
            13 => "r13",
            14 => "r14",
            _ => "r15",
        }
    }

    /// Reads register `i` of the architectural numbering.
    pub fn get_reg_of_index(&self, i: u8) -> (r: u64)
        requires
            valid_reg_index(i as int),
        ensures
            r == self.reg(i as int),
    {
        match i {
            0 => self.rax,
            1 => self.rcx,
            2 => self.rdx,
            3 => self.rbx,
            5 => self.rbp,
            6 => self.rsi,
            7 => self.rdi,
            8 => self.r8,
            9 => self.r9,
            10 => self.r10,
            11 => self.r11,
            12 => self.r12,
            13 => self.r13,
            14 => self.r14,
            _ => self.r15,
        }
    }

    /// Writes register `i` of the architectural numbering, leaving the others unchanged.
    pub fn set_reg_of_index(&mut self, i: u8, val: u64)
        requires
            valid_reg_index(i as int),
        ensures
            final(self).reg(i as int) == val,
            forall|j: int| 0 <= j < 16 && j != i ==> #[trigger] final(self).reg(j) == old(self).reg(j),
    {
        match i {
            0 => self.rax = val,
            1 => self.rcx = val,
            2 => self.rdx = val,
            3 => self.rbx = val,
            5 => self.rbp = val,
            6 => self.rsi = val,
            7 => self.rdi = val,
            8 => self.r8 = val,
            9 => self.r9 = val,
            10 => self.r10 = val,
            11 => self.r11 = val,
            12 => self.r12 = val,
            13 => self.r13 = val,
            14 => self.r14 = val,
            _ => self.r15 = val,
        }
    }

    /// Low 32 bits of `rax`.
    pub fn eax(&self) -> (r: u32)
        ensures
            r as int == self.rax as int % 0x1_0000_0000,
    {
        low_u32(self.rax)
    }

    /// Writes `eax`; as on the processor, the upper half of `rax` is cleared.
    pub fn set_eax(&mut self, v: u32)
        ensures
            final(self).rax == v as u64,
            forall|j: int| 0 <= j < 16 && j != 0 ==> #[trigger] final(self).reg(j) == old(self).reg(j),
    {
        self.rax = v as u64;
    }

    /// Low 16 bits of `rax`.
    pub fn ax(&self) -> (r: u16)
        ensures
            r as int == self.rax as int % 0x1_0000,
    {
        low_u16(self.rax)
    }

    /// Writes `ax`, keeping the other bits of `rax`.
    pub fn set_ax(&mut self, v: u16)
        ensures
            final(self).rax as int == old(self).rax as int - old(self).rax as int % 0x1_0000 + v as int,
            forall|j: int| 0 <= j < 16 && j != 0 ==> #[trigger] final(self).reg(j) == old(self).reg(j),
    {
        let old_rax = self.rax;
        assert((old_rax & !0xffffu64) | (v as u64) == old_rax - old_rax % 0x10000 + v as u64)
            by (bit_vector)
            requires v <= 0xffff;
        self.rax = (self.rax & !0xffffu64) | (v as u64);
    }

    /// Low 8 bits of `rax`.
    pub fn al(&self) -> (r: u8)
        ensures
            r as int == self.rax as int % 0x100,
    {
        low_u8(self.rax)
    }

    /// Writes `al`, keeping the other bits of `rax`.
    pub fn set_al(&mut self, v: u8)
        ensures
            final(self).rax as int == old(self).rax as int - old(self).rax as int % 0x100 + v as int,
            forall|j: int| 0 <= j < 16 && j != 0 ==> #[trigger] final(self).reg(j) == old(self).reg(j),
    {
        let old_rax = self.rax;
        assert((old_rax & !0xffu64) | (v as u64) == old_rax - old_rax % 0x100 + v as u64)
            by (bit_vector)
            requires v <= 0xff;
        self.rax = (self.rax & !0xffu64) | (v as u64);
    }

    /// Bits 8 to 15 of `rax`.
    pub fn ah(&self) -> (r: u8)
        ensures
            r as int == (self.rax as int / 0x100) % 0x100,
    {
        let x = self.rax;
        assert(x >> 8u64 == x / 0x100) by (bit_vector);
        low_u8(x >> 8u64)
    }

    /// Writes `ah`, keeping the other bits of `rax`.
    pub fn set_ah(&mut self, v: u8)
        ensures
            final(self).rax as int == old(self).rax as int - ((old(self).rax as int / 0x100) % 0x100) * 0x100
                + v as int * 0x100,
            forall|j: int| 0 <= j < 16 && j != 0 ==> #[trigger] final(self).reg(j) == old(self).reg(j),
    {
        let x = self.rax;
        let w = v as u64;
        assert((x & !0xff00u64) | (w << 8u64) == x - ((x / 0x100) % 0x100) * 0x100 + w * 0x100)
            by (bit_vector)
            requires w <= 0xff;
        self.rax = (self.rax & !0xff00u64) | ((v as u64) << 8u64);
    }

    /// The 64-bit value `edx:eax` formed by the low halves of `rdx` and `rax`.
    pub fn get_edx_eax(&self) -> (r: u64)
        ensures
            r as int == (self.rdx as int % 0x1_0000_0000) * 0x1_0000_0000 + self.rax as int % 0x1_0000_0000,
    {
        let d = self.rdx;
        let a = self.rax;
        assert(((d & 0xffff_ffffu64) << 32u64) | (a & 0xffff_ffffu64)
            == (d % 0x1_0000_0000) * 0x1_0000_0000 + a % 0x1_0000_0000) by (bit_vector);
        ((self.rdx & 0xffff_ffffu64) << 32u64) | (self.rax & 0xffff_ffffu64)
    }

    /// Low 32 bits of `r8`.
    pub fn r8d(&self) -> (r: u32)
        ensures
            r as int == self.r8 as int % 0x1_0000_0000,
    {
        low_u32(self.r8)
    }

    /// Low 32 bits of `r9`.
    pub fn r9d(&self) -> (r: u32)
        ensures
            r as int == self.r9 as int % 0x1_0000_0000,
    {
        low_u32(self.r9)
    }

    /// Low 32 bits of `r10`.
    pub fn r10d(&self) -> (r: u32)
        ensures
            r as int == self.r10 as int % 0x1_0000_0000,
    {
        low_u32(self.r10)
    }

    /// Low 32 bits of `r11`.
    pub fn r11d(&self) -> (r: u32)
        ensures
            r as int == self.r11 as int % 0x1_0000_0000,
    {
        low_u32(self.r11)
    }

    /// Low 32 bits of `r12`.
    pub fn r12d(&self) -> (r: u32)
        ensures
            r as int == self.r12 as int % 0x1_0000_0000,
    {
        low_u32(self.r12)
    }

    /// Low 32 bits of `r13`.
    pub fn r13d(&self) -> (r: u32)
        ensures
            r as int == self.r13 as int % 0x1_0000_0000,
    {
        low_u32(self.r13)
    }

    /// Low 32 bits of `r14`.
    pub fn r14d(&self) -> (r: u32)
        ensures
            r as int == self.r14 as int % 0x1_0000_0000,
    {
        low_u32(self.r14)
    }

    /// Low 32 bits of `r15`.
    pub fn r15d(&self) -> (r: u32)
        ensures
            r as int == self.r15 as int % 0x1_0000_0000,
    {
        low_u32(self.r15)
    }

    /// Low 16 bits of `r8`.
    pub fn r8w(&self) -> (r: u16)
        ensures
            r as int == self.r8 as int % 0x1_0000,
    {
        low_u16(self.r8)
    }

    /// Low 16 bits of `r9`.
    pub fn r9w(&self) -> (r: u16)
        ensures
            r as int == self.r9 as int % 0x1_0000,
    {
        low_u16(self.r9)
    }

    /// Low 16 bits of `r10`.
    pub fn r10w(&self) -> (r: u16)
        ensures
            r as int == self.r10 as int % 0x1_0000,
    {
        low_u16(self.r10)
    }

    /// Low 16 bits of `r11`.
    pub fn r11w(&self) -> (r: u16)
        ensures
            r as int == self.r11 as int % 0x1_0000,
    {
        low_u16(self.r11)
    }

    /// Low 16 bits of `r12`.
    pub fn r12w(&self) -> (r: u16)
        ensures
            r as int == self.r12 as int % 0x1_0000,
    {
        low_u16(self.r12)
    }

    /// Low 16 bits of `r13`.
    pub fn r13w(&self) -> (r: u16)
        ensures
            r as int == self.r13 as int % 0x1_0000,
    {
        low_u16(self.r13)
    }

    /// Low 16 bits of `r14`.
    pub fn r14w(&self) -> (r: u16)
        ensures
            r as int == self.r14 as int % 0x1_0000,
    {
        low_u16(self.r14)
    }

    /// Low 16 bits of `r15`.
    pub fn r15w(&self) -> (r: u16)
        ensures
            r as int == self.r15 as int % 0x1_0000,
    {
        low_u16(self.r15)
    }

    /// Low 8 bits of `r8`.
    pub fn r8b(&self) -> (r: u8)
        ensures
            r as int == self.r8 as int % 0x100,
    {
        low_u8(self.r8)
    }

    /// Low 8 bits of `r9`.
    pub fn r9b(&self) -> (r: u8)
        ensures
            r as int == self.r9 as int % 0x100,
    {
        low_u8(self.r9)
    }

    /// Low 8 bits of `r10`.
    pub fn r10b(&self) -> (r: u8)
        ensures
            r as int == self.r10 as int % 0x100,
    {
        low_u8(self.r10)
    }

    /// Low 8 bits of `r11`.
    pub fn r11b(&self) -> (r: u8)
        ensures
            r as int == self.r11 as int % 0x100,
    {
        low_u8(self.r11)
    }

    /// Low 8 bits of `r12`.
    pub fn r12b(&self) -> (r: u8)
        ensures
            r as int == self.r12 as int % 0x100,
    {
        low_u8(self.r12)
    }

    /// Low 8 bits of `r13`.
    pub fn r13b(&self) -> (r: u8)
        ensures
            r as int == self.r13 as int % 0x100,
    {
        low_u8(self.r13)
    }

    /// Low 8 bits of `r14`.
    pub fn r14b(&self) -> (r: u8)
        ensures
            r as int == self.r14 as int % 0x100,
    {
        low_u8(self.r14)
    }

    /// Low 8 bits of `r15`.
    pub fn r15b(&self) -> (r: u8)
        ensures
            r as int == self.r15 as int % 0x100,
    {
        low_u8(self.r15)
    }
}

/// The registers before and after a change, for comparison.
pub struct GeneralRegistersDiff {
    old: GeneralRegisters,
    new: GeneralRegisters,
}

impl GeneralRegistersDiff {
    /// The registers before the change.
    pub closed spec fn before(&self) -> GeneralRegisters {
        self.old
    }

    /// The registers after the change.
    pub closed spec fn after(&self) -> GeneralRegisters {
        self.new
    }

    /// Pairs the registers before a change with those after it.
    pub fn new(old: GeneralRegisters, new: GeneralRegisters) -> (r: Self)
        ensures
            r.before() == old,
            r.after() == new,
    {
        GeneralRegistersDiff { old, new }
    }

    /// Whether no register changed.
    pub fn is_same(&self) -> (r: bool)
        ensures
            r == (self.before() == self.after()),
    {
        self.old == self.new
    }
}

} // verus!
