//! A lightweight x86 instruction-length calculator, used where the hardware does
//! not report the length of the instruction that caused an exit.
use vstd::prelude::*;

use crate::error::HvError;

verus! {

/// The longest instruction the architecture allows, in bytes.
pub const MAX_INSTRUCTION_LENGTH: usize = 15;

/// The execution mode of the guest processor.
#[derive(Clone, Copy, Debug, PartialEq, Eq, Structural)]
pub enum VmCpuMode {
    Real,
    Protected,
    /// IA-32e mode with `CS.L = 0`.
    Compatibility,
    /// IA-32e mode with `CS.L = 1`.
    Mode64,
}

/// Legacy instruction prefixes.
#[derive(Clone, Copy, Debug, PartialEq, Eq, Structural)]
pub enum LegacyPrefix {
    /// `0xF0`
    Lock,
    /// `0xF2`
    RepNe,
    /// `0xF3`
    Rep,
    /// `0x2E`
    CsOverride,
    /// `0x36`
    SsOverride,
    /// `0x3E`
    DsOverride,
    /// `0x26`
    EsOverride,
    /// `0x64`
    FsOverride,
    /// `0x65`
    GsOverride,
    /// `0x66`
    OperandSizeOverride,
    /// `0x67`
    AddressSizeOverride,
}

/// The legacy prefix that byte `b` encodes, if any.
pub open spec fn legacy_prefix_spec(b: u8) -> Option<LegacyPrefix> {
    if b == 0xF0 {
        Some(LegacyPrefix::Lock)
    } else if b == 0xF2 {
        Some(LegacyPrefix::RepNe)
    } else if b == 0xF3 {
        Some(LegacyPrefix::Rep)
    } else if b == 0x2E {
        Some(LegacyPrefix::CsOverride)
    } else if b == 0x36 {
        Some(LegacyPrefix::SsOverride)
    } else if b == 0x3E {
        Some(LegacyPrefix::DsOverride)
    } else if b == 0x26 {
        Some(LegacyPrefix::EsOverride)
    } else if b == 0x64 {
        Some(LegacyPrefix::FsOverride)
    } else if b == 0x65 {
        Some(LegacyPrefix::GsOverride)
    } else if b == 0x66 {
        Some(LegacyPrefix::OperandSizeOverride)
    } else if b == 0x67 {
        Some(LegacyPrefix::AddressSizeOverride)
    } else {
        None
    }
}

fn legacy_prefix_of(b: u8) -> (r: Option<LegacyPrefix>)
    ensures
        r == legacy_prefix_spec(b),
{
    match b {
        0xF0 => Some(LegacyPrefix::Lock),
        0xF2 => Some(LegacyPrefix::RepNe),
        0xF3 => Some(LegacyPrefix::Rep),
        0x2E => Some(LegacyPrefix::CsOverride),
        0x36 => Some(LegacyPrefix::SsOverride),
        0x3E => Some(LegacyPrefix::DsOverride),
        0x26 => Some(LegacyPrefix::EsOverride),
        0x64 => Some(LegacyPrefix::FsOverride),
        0x65 => Some(LegacyPrefix::GsOverride),
        0x66 => Some(LegacyPrefix::OperandSizeOverride),
        0x67 => Some(LegacyPrefix::AddressSizeOverride),
        _ => None,
    }
}

/// REX prefix of 64-bit mode.
#[derive(Clone, Copy, Debug, Default, PartialEq, Eq, Structural)]
pub struct RexPrefix {
    /// Extension of the ModR/M `reg` field.
    pub r: bool,
    /// Extension of the SIB `index` field.
    pub x: bool,
    /// Extension of the ModR/M `r/m` field, SIB `base` field, or opcode `reg` field.
    pub b: bool,
    /// 64-bit operand size.
    pub w: bool,
}

/// Whether byte `b` is a REX prefix (`0x40` to `0x4F`).
pub open spec fn is_rex_byte(b: u8) -> bool {
    0x40 <= b <= 0x4F
}

impl RexPrefix {
    /// Parses a REX prefix: `Some` exactly for the bytes `0x40` to `0x4F`, with
    /// `W`, `R`, `X`, `B` taken from bits 3 to 0.
    pub fn from_byte(byte: u8) -> (r: Option<Self>)
        ensures
            r.is_some() == is_rex_byte(byte),
            r.is_some() ==> r.unwrap() == (RexPrefix {
                w: byte & 0x08 != 0,
                r: byte & 0x04 != 0,
                x: byte & 0x02 != 0,
                b: byte & 0x01 != 0,
            }),
    {
        assert((byte & 0xF0 == 0x40) == (0x40 <= byte && byte <= 0x4F)) by (bit_vector);
        if byte & 0xF0 == 0x40 {
            Some(Self {
                w: (byte & 0x08) != 0,
                r: (byte & 0x04) != 0,
                x: (byte & 0x02) != 0,
                b: (byte & 0x01) != 0,
            })
        } else {
            None
        }
    }
}

/// VEX prefix of AVX instructions.
#[derive(Clone, Copy, Debug)]
pub struct VexPrefix {
    /// Length of the prefix (2 or 3 bytes).
    pub length: usize,
    /// Vector length (false: 128-bit, true: 256-bit).
    pub l: bool,
    /// Source register specifier.
    pub vvvv: u8,
    /// Operand type.
    pub w: bool,
}

/// The prefixes found in front of an opcode.
#[derive(Clone, Debug)]
pub struct PrefixInfo {
    /// Legacy prefixes, in order, followed by `None`.
    pub legacy_prefixes: [Option<LegacyPrefix>; 4],
    /// REX prefix.
    pub rex: Option<RexPrefix>,
    /// VEX prefix.
    pub vex: Option<VexPrefix>,
    /// Total prefix length in bytes.
    pub total_length: usize,
}

impl PrefixInfo {
    /// Whether legacy prefix `p` is among the recorded prefixes.
    pub open spec fn has_legacy(&self, p: LegacyPrefix) -> bool {
        exists|k: int| 0 <= k < 4 && #[trigger] self.legacy_prefixes@[k] == Some(p)
    }

    /// Whether REX.W is present.
    pub open spec fn rex_w(&self) -> bool {
        self.rex.is_some() && self.rex.unwrap().w
    }
}

/// ModR/M byte.
#[derive(Clone, Copy, Debug)]
pub struct ModRm {
    /// Mode field (2 bits).
    pub mode: u8,
    /// Register or opcode-extension field (3 bits).
    pub reg: u8,
    /// Register or memory field (3 bits).
    pub rm: u8,
}

/// Bytes of displacement that a memory operand carries: never more than four,
/// since a 64-bit address takes a sign-extended 32-bit displacement.
pub open spec fn full_disp_spec(address_size: u8) -> int {
    if address_size == 8 {
        4
    } else {
        address_size as int
    }
}

/// Bytes of displacement that ModR/M fields `mode` and `rm` call for.
pub open spec fn modrm_disp_spec(mode: u8, rm: u8, address_size: u8) -> int {
    if mode == 0 {
        if rm == 5 {
            full_disp_spec(address_size)
        } else {
            0
        }
    } else if mode == 1 {
        1
    } else if mode == 2 {
        full_disp_spec(address_size)
    } else {
        0
    }
}

impl ModRm {
    /// Splits a ModR/M byte into its fields.
    pub fn from_byte(byte: u8) -> (r: Self)
        ensures
            r.mode as int == byte as int / 64,
            r.reg as int == (byte as int / 8) % 8,
            r.rm as int == byte as int % 8,
    {
        assert((byte >> 6u8) & 0x03 == byte / 64 && (byte >> 3u8) & 0x07 == (byte / 8) % 8 && byte
            & 0x07 == byte % 8) by (bit_vector);
        Self { mode: (byte >> 6u8) & 0x03, reg: (byte >> 3u8) & 0x07, rm: byte & 0x07 }
    }

    /// Whether a SIB byte follows.
    pub fn needs_sib(&self) -> (r: bool)
        ensures
            r == (self.mode != 3 && self.rm == 4),
    {
        self.mode != 3 && self.rm == 4
    }

    /// Length of the displacement in bytes.
    pub fn displacement_length(&self, address_size: u8) -> (r: usize)
        ensures
            r == modrm_disp_spec(self.mode, self.rm, address_size),
    {
        let full: usize = if address_size == 8 {
            4
        } else {
            address_size as usize
        };
        match self.mode {
            0 => {
                if self.rm == 5 {
                    full
                } else {
                    0
                }
            },
            1 => 1,
            2 => full,
            _ => 0,
        }
    }
}

/// SIB (scale, index, base) byte.
#[derive(Clone, Copy, Debug)]
pub struct Sib {
    /// Scale field (2 bits).
    pub scale: u8,
    /// Index field (3 bits).
    pub index: u8,
    /// Base field (3 bits).
    pub base: u8,
}

impl Sib {
    /// Splits a SIB byte into its fields.
    pub fn from_byte(byte: u8) -> (r: Self)
        ensures
            r.scale as int == byte as int / 64,
            r.index as int == (byte as int / 8) % 8,
            r.base as int == byte as int % 8,
    {
        assert((byte >> 6u8) & 0x03 == byte / 64 && (byte >> 3u8) & 0x07 == (byte / 8) % 8 && byte
            & 0x07 == byte % 8) by (bit_vector);
        Self { scale: (byte >> 6u8) & 0x03, index: (byte >> 3u8) & 0x07, base: byte & 0x07 }
    }

    /// Whether a base of 5 asks for a full displacement under this ModR/M.
    pub fn needs_displacement(&self, modrm: &ModRm) -> (r: bool)
        ensures
            r == (self.base == 5 && (modrm.mode == 0 || modrm.mode == 2)),
    {
        self.base == 5 && (modrm.mode == 0 || modrm.mode == 2)
    }
}

/// Operand and address size of an instruction, in bytes.
#[derive(Clone, Copy, Debug, PartialEq, Eq, Structural)]
pub struct SizeInfo {
    /// Operand size (1, 2, 4 or 8).
    pub operand_size: u8,
    /// Address size (2, 4 or 8).
    pub address_size: u8,
}

/// Operand size in `mode`, given whether `0x66` and REX.W are present.
pub open spec fn operand_size_spec(mode: VmCpuMode, has66: bool, rex_w: bool) -> u8 {
    if rex_w && mode == VmCpuMode::Mode64 {
        8
    } else if has66 {
        if mode == VmCpuMode::Real {
            4
        } else {
            2
        }
    } else if mode == VmCpuMode::Real {
        2
    } else {
        4
    }
}

/// Address size in `mode`, given whether `0x67` is present.
pub open spec fn address_size_spec(mode: VmCpuMode, has67: bool) -> u8 {
    match mode {
        VmCpuMode::Real => if has67 {
            4
        } else {
            2
        },
        VmCpuMode::Mode64 => if has67 {
            4
        } else {
            8
        },
        _ => if has67 {
            2
        } else {
            4
        },
    }
}

fn has_prefix(info: &PrefixInfo, p: LegacyPrefix) -> (r: bool)
    ensures
        r == info.has_legacy(p),
{
    let mut k: usize = 0;
    while k < 4
        invariant
            0 <= k <= 4,
            forall|j: int| 0 <= j < k ==> info.legacy_prefixes@[j] != Some(p),
        decreases 4 - k,
    {
        match info.legacy_prefixes[k] {
            Some(q) => {
                if q == p {
                    return true;
                }
            },
            None => {},
        }
        k = k + 1;
    }
    false
}

impl SizeInfo {
    /// Operand and address size in `cpu_mode` under the prefixes of `prefix_info`.
    pub fn calculate(cpu_mode: VmCpuMode, prefix_info: &PrefixInfo) -> (r: Self)
        ensures
            r.operand_size == operand_size_spec(
                cpu_mode,
                prefix_info.has_legacy(LegacyPrefix::OperandSizeOverride),
                prefix_info.rex_w(),
            ),
            r.address_size == address_size_spec(
                cpu_mode,
                prefix_info.has_legacy(LegacyPrefix::AddressSizeOverride),
            ),
    {
        let (default_operand, default_address): (u8, u8) = match cpu_mode {
            VmCpuMode::Real => (2, 2),
            VmCpuMode::Protected => (4, 4),
            VmCpuMode::Mode64 => (4, 8),
            VmCpuMode::Compatibility => (4, 4),
        };
        let mut operand_size = default_operand;
        let mut address_size = default_address;
        if has_prefix(prefix_info, LegacyPrefix::OperandSizeOverride) {
            operand_size = match cpu_mode {
                VmCpuMode::Mode64 => 2,
                _ => if default_operand == 2 {
                    4
                } else {
                    2
                },
            };
        }
        if has_prefix(prefix_info, LegacyPrefix::AddressSizeOverride) {
            address_size = match cpu_mode {
                VmCpuMode::Real => 4,
                VmCpuMode::Mode64 => 4,
                _ => if default_address == 2 {
                    4
                } else {
                    2
                },
            };
        }
        match prefix_info.rex {
            Some(rex) => {
                if rex.w && cpu_mode == VmCpuMode::Mode64 {
                    operand_size = 8;
                }
            },
            None => {},
        }
        SizeInfo { operand_size, address_size }
    }
}

/// Number of legacy prefix bytes at the start of `s`, counted from position `i`
/// and stopping after the fourth.
pub open spec fn legacy_run(s: Seq<u8>, i: nat) -> nat
    decreases 4 - i,
{
    if i < 4 && i < s.len() && legacy_prefix_spec(s[i as int]).is_some() {
        legacy_run(s, i + 1)
    } else {
        i
    }
}

/// Whether legacy prefix `p` occurs among the first `n` bytes of `s`.
pub open spec fn seq_has_prefix(s: Seq<u8>, n: int, p: LegacyPrefix) -> bool {
    exists|k: int| 0 <= k < n && #[trigger] legacy_prefix_spec(s[k]) == Some(p)
}

/// Whether a one-byte (`two_byte == false`) or `0x0F`-escaped opcode takes a ModR/M byte.
pub open spec fn needs_modrm_spec(opcode: u8, two_byte: bool) -> bool {
    if two_byte {
        true
    } else {
        !(alu_al_imm(opcode) || alu_ax_imm(opcode) || opcode == 0x68 || opcode == 0x6A
            || opcode == 0x06 || opcode == 0x07 || opcode == 0x0E || opcode == 0x16 || opcode == 0x17
            || opcode == 0x1E || opcode == 0x1F || opcode == 0x27 || opcode == 0x2F || opcode == 0x37
            || opcode == 0x3F || (0x40 <= opcode <= 0x61) || (0x70 <= opcode <= 0x7F) || (0x90
            <= opcode <= 0xBF) || opcode == 0xC2 || opcode == 0xC3 || opcode == 0xCA || opcode
            == 0xCB || (0xCC <= opcode <= 0xCF) || opcode == 0xD4 || opcode == 0xD5 || (0xE0
            <= opcode <= 0xE9) || (0xEB <= opcode <= 0xEF) || opcode == 0xF1 || opcode == 0xF4
            || opcode == 0xF5 || (0xF8 <= opcode <= 0xFD))
    }
}

/// Whether `opcode` is an ALU operation on `AL` with an 8-bit immediate.
pub open spec fn alu_al_imm(opcode: u8) -> bool {
    opcode < 0x40 && opcode % 8 == 4
}

/// Whether `opcode` is an ALU operation on `eAX` with a full immediate.
pub open spec fn alu_ax_imm(opcode: u8) -> bool {
    opcode < 0x40 && opcode % 8 == 5
}

/// Bytes of a full-size immediate for operand size `operand_size`: 64-bit operands
/// take a sign-extended 32-bit immediate.
pub open spec fn full_imm_spec(operand_size: u8) -> int {
    if operand_size == 8 {
        4
    } else {
        operand_size as int
    }
}

/// Bytes of immediate that an opcode carries.
pub open spec fn imm_len_spec(opcode: u8, two_byte: bool, operand_size: u8) -> int {
    if two_byte {
        0
    } else if alu_al_imm(opcode) || opcode == 0x6A || (0x70 <= opcode <= 0x7F) || opcode == 0x80
        || opcode == 0x82 || opcode == 0x83 || opcode == 0xA8 || (0xB0 <= opcode <= 0xB7)
        || opcode == 0xC0 || opcode == 0xC1 || opcode == 0xC6 || opcode == 0xCD || opcode
        == 0xEB {
        1
    } else if 0xB8 <= opcode <= 0xBF {
        operand_size as int
    } else if alu_ax_imm(opcode) || opcode == 0x68 || opcode == 0x69 || opcode == 0x81 || opcode
        == 0xA9 || opcode == 0xC7 || opcode == 0xE8 || opcode == 0xE9 {
        full_imm_spec(operand_size)
    } else if opcode == 0xC2 || opcode == 0xCA {
        2
    } else if opcode == 0xC8 {
        3
    } else {
        0
    }
}

/// Length of the ModR/M, SIB and displacement bytes that start at position `m`, and of
/// the immediate after them, if `s` holds them.
pub open spec fn operand_bytes_spec(
    s: Seq<u8>,
    m: int,
    needs_modrm: bool,
    address_size: u8,
) -> Option<int> {
    if !needs_modrm {
        Some(0)
    } else if m >= s.len() {
        None
    } else {
        let mode = (s[m] as int / 64) as u8;
        let rm = (s[m] as int % 8) as u8;
        if mode != 3 && rm == 4 {
            if m + 1 >= s.len() {
                None
            } else {
                let base = s[m + 1] as int % 8;
                let d = if base == 5 && (mode == 0 || mode == 2) {
                    full_disp_spec(address_size)
                } else {
                    modrm_disp_spec(mode, rm, address_size)
                };
                Some(2 + d)
            }
        } else {
            Some(1 + modrm_disp_spec(mode, rm, address_size))
        }
    }
}

/// The length of the instruction at the start of `s` in `mode`, or `None` where `s`
/// is empty, longer than the architecture allows, or ends before the instruction does.
pub open spec fn insn_len_spec(s: Seq<u8>, mode: VmCpuMode) -> Option<int> {
    if s.len() == 0 || s.len() > MAX_INSTRUCTION_LENGTH {
        None
    } else {
        let n = legacy_run(s, 0) as int;
        let rex = n < s.len() && is_rex_byte(s[n]);
        let p = if rex {
            n + 1
        } else {
            n
        };
        if p >= s.len() {
            None
        } else {
            let opcode = s[p];
            let two_byte = opcode == 0x0F;
            if two_byte && p + 1 >= s.len() {
                None
            } else {
                let m = if two_byte {
                    p + 2
                } else {
                    p + 1
                };
                let rex_w = rex && s[n] & 0x08 != 0;
                let osz = operand_size_spec(
                    mode,
                    seq_has_prefix(s, n, LegacyPrefix::OperandSizeOverride),
                    rex_w,
                );
                let asz = address_size_spec(
                    mode,
                    seq_has_prefix(s, n, LegacyPrefix::AddressSizeOverride),
                );
                match operand_bytes_spec(s, m, needs_modrm_spec(opcode, two_byte), asz) {
                    Some(o) => {
                        let total = m + o + imm_len_spec(opcode, two_byte, osz);
                        if total > s.len() {
                            None
                        } else {
                            Some(total)
                        }
                    },
                    None => None,
                }
            }
        }
    }
}

fn is_legacy_prefix(b: u8) -> (r: bool)
    ensures
        r == legacy_prefix_spec(b).is_some(),
{
    legacy_prefix_of(b).is_some()
}

/// Parses the legacy prefixes (at most four) and an optional REX prefix.
fn parse_prefixes(bytes: &[u8]) -> (info: PrefixInfo)
    ensures
        ({
            let s = bytes@;
            let n = legacy_run(s, 0) as int;
            let rex = n < s.len() && is_rex_byte(s[n]);
            &&& info.total_length == if rex {
                n + 1
            } else {
                n
            }
            &&& forall|k: int| 0 <= k < n ==> #[trigger] info.legacy_prefixes@[k] == legacy_prefix_spec(s[k])
            &&& forall|k: int| n <= k < 4 ==> #[trigger] info.legacy_prefixes@[k] == None::<LegacyPrefix>
            &&& info.rex.is_some() == rex
            &&& rex ==> info.rex.unwrap().w == (s[n] & 0x08 != 0)
            &&& info.vex.is_none()
        }),
{
    let ghost s = bytes@;
    let mut info = PrefixInfo {
        legacy_prefixes: [None, None, None, None],
        rex: None,
        vex: None,
        total_length: 0,
    };
    let mut pos: usize = 0;
    while pos < bytes.len() && pos < 4 && is_legacy_prefix(bytes[pos])
        invariant
            s == bytes@,
            pos <= 4,
            pos <= bytes.len(),
            legacy_run(s, 0) == legacy_run(s, pos as nat),
            forall|k: int| 0 <= k < pos ==> #[trigger] info.legacy_prefixes@[k] == legacy_prefix_spec(s[k]),
            forall|k: int| pos <= k < 4 ==> #[trigger] info.legacy_prefixes@[k] == None::<LegacyPrefix>,
            info.rex.is_none(),
            info.vex.is_none(),
        decreases 4 - pos,
    {
        let p = legacy_prefix_of(bytes[pos]);
        info.legacy_prefixes.set(pos, p);
        pos = pos + 1;
    }
    if pos < bytes.len() {
        let rex = RexPrefix::from_byte(bytes[pos]);
        if rex.is_some() {
            info.rex = rex;
            pos = pos + 1;
        }
    }
    info.total_length = pos;
    info
}

/// Whether an opcode takes a ModR/M byte.
fn instruction_needs_modrm(opcode: u8, is_two_byte: bool) -> (r: bool)
    ensures
        r == needs_modrm_spec(opcode, is_two_byte),
{
    if is_two_byte {
        true
    } else if opcode < 0x40 && (opcode % 8 == 4 || opcode % 8 == 5) {
        false
    } else {
        match opcode {
            0x68 | 0x6A => false,
            0x06 | 0x07 | 0x0E | 0x16 | 0x17 | 0x1E | 0x1F => false,
            0x27 | 0x2F | 0x37 | 0x3F => false,
            0x40..=0x4F => false,
            0x50..=0x5F => false,
            0x60 | 0x61 => false,
            0x70..=0x7F => false,
            0x90..=0x97 => false,
            0x98..=0x9F => false,
            0xA0..=0xA3 => false,
            0xA4..=0xA7 => false,
            0xA8..=0xAF => false,
            0xB0..=0xBF => false,
            0xC2 | 0xC3 | 0xCA | 0xCB => false,
            0xCC..=0xCE => false,
            0xCF => false,
            0xD4 | 0xD5 => false,
            0xE0..=0xE3 => false,
            0xE4..=0xE7 => false,
            0xE8 | 0xE9 => false,
            0xEB => false,
            0xEC..=0xEF => false,
            0xF1 | 0xF4 | 0xF5 | 0xF8..=0xFD => false,
            _ => true,
        }
    }
}

/// Bytes of immediate that an opcode carries under `size_info`.
fn calculate_immediate_length(opcode: u8, is_two_byte: bool, size_info: &SizeInfo) -> (r: usize)
    ensures
        r == imm_len_spec(opcode, is_two_byte, size_info.operand_size),
{
    let full: usize = if size_info.operand_size == 8 {
        4
    } else {
        size_info.operand_size as usize
    };
    if is_two_byte {
        return 0;
    }
    if opcode < 0x40 && opcode % 8 == 4 {
        return 1;
    }
    if opcode < 0x40 && opcode % 8 == 5 {
        return full;
    }
    match opcode {
        0x6A => 1,
        0x70..=0x7F => 1,
        0x80 | 0x82 | 0x83 => 1,
        0xA8 => 1,
        0xB0..=0xB7 => 1,
        0xC0 | 0xC1 => 1,
        0xC6 => 1,
        0xCD => 1,
        0xEB => 1,
        0xB8..=0xBF => size_info.operand_size as usize,
        0x68 | 0x69 | 0x81 | 0xA9 | 0xC7 | 0xE8 | 0xE9 => full,
        0xC2 | 0xCA => 2,
        0xC8 => 3,
        _ => 0,
    }
}

proof fn lemma_has_prefix(s: Seq<u8>, info: PrefixInfo, n: int, p: LegacyPrefix)
    requires
        0 <= n <= 4,
        n <= s.len(),
        forall|k: int| 0 <= k < n ==> #[trigger] info.legacy_prefixes@[k] == legacy_prefix_spec(s[k]),
        forall|k: int| n <= k < 4 ==> #[trigger] info.legacy_prefixes@[k] == None::<LegacyPrefix>,
    ensures
        info.has_legacy(p) == seq_has_prefix(s, n, p),
{
    if info.has_legacy(p) {
        let k = choose|k: int| 0 <= k < 4 && #[trigger] info.legacy_prefixes@[k] == Some(p);
        assert(legacy_prefix_spec(s[k]) == Some(p));
    }
    if seq_has_prefix(s, n, p) {
        let k = choose|k: int| 0 <= k < n && #[trigger] legacy_prefix_spec(s[k]) == Some(p);
        assert(info.legacy_prefixes@[k] == Some(p));
    }
}

proof fn lemma_legacy_run_bounds(s: Seq<u8>, i: nat)
    requires
        i <= 4,
    ensures
        i <= legacy_run(s, i) <= 4,
        i <= s.len() ==> legacy_run(s, i) <= s.len(),
    decreases 4 - i,
{
    if i < 4 && i < s.len() && legacy_prefix_spec(s[i as int]).is_some() {
        lemma_legacy_run_bounds(s, i + 1);
    }
}

/// Calculates the length of the instruction at the start of `instruction_bytes`.
///
/// Fails with `InvalidInput` where the bytes are empty, longer than fifteen, or end
/// before the instruction does.
pub fn calculate_instruction_length(instruction_bytes: &[u8], cpu_mode: VmCpuMode) -> (r: Result<
    usize,
    HvError,
>)
    ensures
        match insn_len_spec(instruction_bytes@, cpu_mode) {
            Some(n) => r == Ok::<usize, HvError>(n as usize),
            None => r == Err::<usize, HvError>(HvError::InvalidInput),
        },
{
    let ghost s = instruction_bytes@;
    if instruction_bytes.len() == 0 {
        return Err(HvError::InvalidInput);
    }
    if instruction_bytes.len() > MAX_INSTRUCTION_LENGTH {
        return Err(HvError::InvalidInput);
    }
    let prefix_info = parse_prefixes(instruction_bytes);
    proof {
        lemma_legacy_run_bounds(s, 0);
        let n = legacy_run(s, 0) as int;
        lemma_has_prefix(s, prefix_info, n, LegacyPrefix::OperandSizeOverride);
        lemma_has_prefix(s, prefix_info, n, LegacyPrefix::AddressSizeOverride);
    }
    let len = instruction_bytes.len();
    let mut pos = prefix_info.total_length;
    if pos >= len {
        return Err(HvError::InvalidInput);
    }
    let size_info = SizeInfo::calculate(cpu_mode, &prefix_info);
    let opcode = instruction_bytes[pos];
    pos = pos + 1;
    let mut is_two_byte_opcode = false;
    if opcode == 0x0F {
        if pos >= len {
            return Err(HvError::InvalidInput);
        }
        is_two_byte_opcode = true;
        pos = pos + 1;
    }
    let needs_modrm = instruction_needs_modrm(opcode, is_two_byte_opcode);
    let mut displacement_length: usize = 0;
    if needs_modrm {
        if pos >= len {
            return Err(HvError::InvalidInput);
        }
        let modrm_byte = ModRm::from_byte(instruction_bytes[pos]);
        pos = pos + 1;
        if modrm_byte.needs_sib() {
            if pos >= len {
                return Err(HvError::InvalidInput);
            }
            let sib_byte = Sib::from_byte(instruction_bytes[pos]);
            pos = pos + 1;
            displacement_length = modrm_byte.displacement_length(size_info.address_size);
            if sib_byte.needs_displacement(&modrm_byte) {
                displacement_length = if size_info.address_size == 8 {
                    4
                } else {
                    size_info.address_size as usize
                };
            }
        } else {
            displacement_length = modrm_byte.displacement_length(size_info.address_size);
        }
    }
    let immediate_length = calculate_immediate_length(
        opcode,
        is_two_byte_opcode,
        &size_info,
    );
    let total = pos + displacement_length + immediate_length;
    if total > MAX_INSTRUCTION_LENGTH || total > len {
        return Err(HvError::InvalidInput);
    }
    Ok(total)
}

proof fn lemma_legacy_run_take(s: Seq<u8>, t: Seq<u8>, i: nat)
    requires
        i <= 4,
        i <= legacy_run(s, i),
        legacy_run(s, i) < t.len() <= s.len(),
        forall|k: int| 0 <= k < t.len() ==> t[k] == s[k],
    ensures
        legacy_run(t, i) == legacy_run(s, i),
    decreases 4 - i,
{
    if i < 4 && i < s.len() && legacy_prefix_spec(s[i as int]).is_some() {
        lemma_legacy_run_bounds(s, i + 1);
        lemma_legacy_run_take(s, t, i + 1);
    }
}

proof fn lemma_operand_bytes_take(s: Seq<u8>, t: Seq<u8>, m: int, needs: bool, asz: u8, imm: int)
    requires
        t.len() <= s.len(),
        forall|k: int| 0 <= k < t.len() ==> t[k] == s[k],
        0 <= m,
        imm >= 0,
        operand_bytes_spec(s, m, needs, asz).is_some(),
        m + operand_bytes_spec(s, m, needs, asz).unwrap() + imm == t.len(),
    ensures
        operand_bytes_spec(t, m, needs, asz) == operand_bytes_spec(s, m, needs, asz),
{
}

/// Decoding is self-consistent: an instruction that decodes to length `n` lies within
/// the bytes given, and decoding its first `n` bytes alone gives `n` again.
#[verifier::rlimit(30)]
pub proof fn lemma_decode_len_stable(s: Seq<u8>, mode: VmCpuMode)
    requires
        insn_len_spec(s, mode).is_some(),
    ensures
        insn_len_spec(s, mode).unwrap() <= s.len(),
        insn_len_spec(s.take(insn_len_spec(s, mode).unwrap()), mode) == insn_len_spec(s, mode),
{
    let n = insn_len_spec(s, mode).unwrap();
    let t = s.take(n);
    assert(t.len() == n);
    assert(forall|k: int| 0 <= k < t.len() ==> t[k] == s[k]);
    lemma_legacy_run_bounds(s, 0);
    let c = legacy_run(s, 0) as int;
    let rex = c < s.len() && is_rex_byte(s[c]);
    let p = if rex {
        c + 1
    } else {
        c
    };
    let opcode = s[p];
    let two_byte = opcode == 0x0F;
    let m = if two_byte {
        p + 2
    } else {
        p + 1
    };
    assert(m <= n);
    lemma_legacy_run_take(s, t, 0);
    assert forall|q: LegacyPrefix| seq_has_prefix(t, c, q) == seq_has_prefix(s, c, q) by {
        if seq_has_prefix(s, c, q) {
            let k = choose|k: int| 0 <= k < c && #[trigger] legacy_prefix_spec(s[k]) == Some(q);
            assert(legacy_prefix_spec(t[k]) == Some(q));
        }
        if seq_has_prefix(t, c, q) {
            let k = choose|k: int| 0 <= k < c && #[trigger] legacy_prefix_spec(t[k]) == Some(q);
            assert(legacy_prefix_spec(s[k]) == Some(q));
        }
    }
    let rex_w = rex && s[c] & 0x08 != 0;
    let osz = operand_size_spec(mode, seq_has_prefix(s, c, LegacyPrefix::OperandSizeOverride), rex_w);
    let asz = address_size_spec(mode, seq_has_prefix(s, c, LegacyPrefix::AddressSizeOverride));
    let needs = needs_modrm_spec(opcode, two_byte);
    lemma_operand_bytes_take(s, t, m, needs, asz, imm_len_spec(opcode, two_byte, osz));
}

} // verus!
