use vstd::prelude::*;

verus! {

/// Whether bit `b` of `x` is set.
pub open spec fn bit_set(x: u64, b: u64) -> bool {
    x & (1u64 << b) != 0
}

/// The low 8 bits of `x`.
pub fn low_u8(x: u64) -> (r: u8)
    ensures
        r as int == x as int % 0x100,
{
    assert(x & 0xff == x % 0x100) by (bit_vector);
    (x & 0xff) as u8
}

/// The low 16 bits of `x`.
pub fn low_u16(x: u64) -> (r: u16)
    ensures
        r as int == x as int % 0x1_0000,
{
    assert(x & 0xffff == x % 0x1_0000) by (bit_vector);
    (x & 0xffff) as u16
}

/// The low 32 bits of `x`.
pub fn low_u32(x: u64) -> (r: u32)
    ensures
        r as int == x as int % 0x1_0000_0000,
{
    assert(x & 0xffff_ffff == x % 0x1_0000_0000) by (bit_vector);
    (x & 0xffff_ffff) as u32
}

} // verus!
