//! Permission bitmaps: one bit per I/O port or per MSR access, 1 meaning the access
//! exits to the hypervisor.
use vstd::prelude::*;

verus! {

/// Size of a page.
pub const PAGE_SIZE: usize = 0x1000;

/// Whether bit `i` of the bitmap `s` is set (bit `i % 8` of byte `i / 8`).
pub open spec fn bit_of(s: Seq<u8>, i: int) -> bool {
    (s[i / 8] >> ((i % 8) as u8)) & 1 == 1
}

proof fn lemma_bit_set(x: u8, b: u8, j: u8)
    requires
        b < 8,
        j < 8,
    ensures
        (((x | (1u8 << b)) >> j) & 1 == 1) == (if j == b {
            true
        } else {
            (x >> j) & 1 == 1
        }),
{
    assert((((x | (1u8 << b)) >> j) & 1 == 1) == (if j == b {
        true
    } else {
        (x >> j) & 1 == 1
    })) by (bit_vector)
        requires
            b < 8,
            j < 8,
    ;
}

proof fn lemma_bit_clear(x: u8, b: u8, j: u8)
    requires
        b < 8,
        j < 8,
    ensures
        (((x & !(1u8 << b)) >> j) & 1 == 1) == (if j == b {
            false
        } else {
            (x >> j) & 1 == 1
        }),
{
    assert((((x & !(1u8 << b)) >> j) & 1 == 1) == (if j == b {
        false
    } else {
        (x >> j) & 1 == 1
    })) by (bit_vector)
        requires
            b < 8,
            j < 8,
    ;
}

/// Sets bit `i` of `bytes` to `on`, leaving every other bit.
fn set_bit(bytes: &mut Vec<u8>, i: usize, on: bool)
    requires
        i / 8 < old(bytes)@.len(),
    ensures
        final(bytes)@.len() == old(bytes)@.len(),
        bit_of(final(bytes)@, i as int) == on,
        forall|j: int|
            0 <= j < old(bytes)@.len() * 8 && j != i ==> #[trigger] bit_of(final(bytes)@, j) == bit_of(
                old(bytes)@,
                j,
            ),
{
    let idx = i / 8;
    let b = (i % 8) as u8;
    let old_byte = bytes[idx];
    let new_byte = if on {
        old_byte | (1u8 << b)
    } else {
        old_byte & !(1u8 << b)
    };
    bytes.set(idx, new_byte);
    proof {
        if on {
            lemma_bit_set(old_byte, b, b);
        } else {
            lemma_bit_clear(old_byte, b, b);
        }
        assert forall|j: int|
            0 <= j < old(bytes)@.len() * 8 && j != i implies #[trigger] bit_of(bytes@, j) == bit_of(
            old(bytes)@,
            j,
        ) by {
            if j / 8 == idx {
                if on {
                    lemma_bit_set(old_byte, b, (j % 8) as u8);
                } else {
                    lemma_bit_clear(old_byte, b, (j % 8) as u8);
                }
            }
        }
    }
}

fn filled(len: usize, v: u8) -> (r: Vec<u8>)
    ensures
        r@.len() == len,
        forall|i: int| 0 <= i < len ==> #[trigger] r@[i] == v,
{
    let mut bytes: Vec<u8> = Vec::new();
    let mut i: usize = 0;
    while i < len
        invariant
            i <= len,
            bytes@.len() == i,
            forall|j: int| 0 <= j < i ==> #[trigger] bytes@[j] == v,
        decreases len - i,
    {
        bytes.push(v);
        i = i + 1;
    }
    bytes
}

/// Number of I/O ports.
pub const IO_PORT_COUNT: u32 = 0x1_0000;

/// The I/O permission map: bit `p` stands for port `p`. Three pages; the first two
/// also serve as I/O bitmaps A and B of Intel VT-x.
pub struct IOPm {
    bytes: Vec<u8>,
}

impl View for IOPm {
    type V = Seq<u8>;

    closed spec fn view(&self) -> Seq<u8> {
        self.bytes@
    }
}

impl IOPm {
    /// The map has its three pages.
    pub open spec fn wf(&self) -> bool {
        self@.len() == 3 * PAGE_SIZE
    }

    /// Whether accesses to `port` exit.
    pub open spec fn intercepts(&self, port: int) -> bool {
        bit_of(self@, port)
    }

    /// A map that lets every port through; the three bits past port `0xFFFF`, which
    /// accesses that wrap around reach, stay set.
    pub fn passthrough_all() -> (r: Self)
        ensures
            r.wf(),
            forall|p: int| 0 <= p < IO_PORT_COUNT ==> !#[trigger] r.intercepts(p),
            r@[2 * PAGE_SIZE] == 7,
    {
        let mut bytes = filled(3 * PAGE_SIZE, 0);
        bytes.set(2 * PAGE_SIZE, 7);
        assert((0u8 >> 0u8) & 1 == 0 && (0u8 >> 1u8) & 1 == 0 && (0u8 >> 2u8) & 1 == 0 && (0u8 >> 3u8) & 1 == 0
            && (0u8 >> 4u8) & 1 == 0 && (0u8 >> 5u8) & 1 == 0 && (0u8 >> 6u8) & 1 == 0 && (0u8 >> 7u8) & 1 == 0)
            by (bit_vector);
        IOPm { bytes }
    }

    /// A map that intercepts every port.
    pub fn intercept_all() -> (r: Self)
        ensures
            r.wf(),
            forall|p: int| 0 <= p < IO_PORT_COUNT ==> #[trigger] r.intercepts(p),
    {
        let bytes = filled(3 * PAGE_SIZE, 0xff);
        assert((0xffu8 >> 0u8) & 1 == 1 && (0xffu8 >> 1u8) & 1 == 1 && (0xffu8 >> 2u8) & 1 == 1 && (0xffu8
            >> 3u8) & 1 == 1 && (0xffu8 >> 4u8) & 1 == 1 && (0xffu8 >> 5u8) & 1 == 1 && (0xffu8 >> 6u8)
            & 1 == 1 && (0xffu8 >> 7u8) & 1 == 1) by (bit_vector);
        IOPm { bytes }
    }

    /// The bytes of the map, as the processor reads them.
    pub fn as_bytes(&self) -> (r: &[u8])
        ensures
            r@ == self@,
    {
        self.bytes.as_slice()
    }

    /// Whether accesses to `port` exit.
    pub fn is_intercepted(&self, port: u32) -> (r: bool)
        requires
            self.wf(),
            port < IO_PORT_COUNT,
        ensures
            r == self.intercepts(port as int),
    {
        (self.bytes[(port / 8) as usize] >> ((port % 8) as u8)) & 1 == 1
    }

    /// Sets whether accesses to `port` exit, leaving every other port.
    pub fn set_intercept(&mut self, port: u32, intercept: bool)
        requires
            old(self).wf(),
            port < IO_PORT_COUNT,
        ensures
            final(self).wf(),
            final(self).intercepts(port as int) == intercept,
            forall|p: int|
                0 <= p < 3 * PAGE_SIZE * 8 && p != port ==> #[trigger] final(self).intercepts(p)
                    == old(self).intercepts(p),
    {
        set_bit(&mut self.bytes, port as usize, intercept);
    }

    /// Sets whether accesses to the `count` ports from `port_base` exit, leaving every
    /// other port.
    pub fn set_intercept_of_range(&mut self, port_base: u32, count: u32, intercept: bool)
        requires
            old(self).wf(),
            port_base + count <= IO_PORT_COUNT,
        ensures
            final(self).wf(),
            forall|p: int| port_base <= p < port_base + count ==> #[trigger] final(self).intercepts(p) == intercept,
            forall|p: int|
                0 <= p < 3 * PAGE_SIZE * 8 && !(port_base <= p < port_base + count)
                    ==> #[trigger] final(self).intercepts(p) == old(self).intercepts(p),
    {
        let mut port = port_base;
        while port < port_base + count
            invariant
                self.wf(),
                port_base <= port <= port_base + count,
                port_base + count <= IO_PORT_COUNT,
                forall|p: int| port_base <= p < port ==> #[trigger] self.intercepts(p) == intercept,
                forall|p: int|
                    0 <= p < 3 * PAGE_SIZE * 8 && !(port_base <= p < port) ==> #[trigger] self.intercepts(p)
                        == old(self).intercepts(p),
            decreases port_base + count - port,
        {
            self.set_intercept(port, intercept);
            port = port + 1;
        }
    }
}

/// Whether `msr` lies in one of the three ranges that an MSR permission map covers.
pub open spec fn msr_in_range(msr: u32) -> bool {
    msr <= 0x1fff || (0xc000_0000 <= msr <= 0xc000_1fff) || (0xc001_0000 <= msr <= 0xc001_1fff)
}

/// Index of the bit of the AMD-V MSR permission map that controls reads
/// (`is_write == false`) or writes of `msr`: two bits per MSR, in 2 KiB per range.
pub open spec fn msrpm_bit(msr: u32, is_write: bool) -> int {
    let segment: int = if msr <= 0x1fff {
        0
    } else if msr <= 0xc000_1fff {
        1
    } else {
        2
    };
    segment * 2048 * 8 + (msr as int % 0x2000) * 2 + if is_write {
        1int
    } else {
        0int
    }
}

/// The AMD-V MSR permission map: two pages.
pub struct MSRPm {
    bytes: Vec<u8>,
}

impl View for MSRPm {
    type V = Seq<u8>;

    closed spec fn view(&self) -> Seq<u8> {
        self.bytes@
    }
}

impl MSRPm {
    /// The map has its two pages.
    pub open spec fn wf(&self) -> bool {
        self@.len() == 2 * PAGE_SIZE
    }

    /// Whether the access of `msr` (a write when `is_write`) exits.
    pub open spec fn intercepts(&self, msr: u32, is_write: bool) -> bool {
        bit_of(self@, msrpm_bit(msr, is_write))
    }

    /// A map that lets every access through.
    pub fn passthrough_all() -> (r: Self)
        ensures
            r.wf(),
            forall|i: int| 0 <= i < r@.len() ==> #[trigger] r@[i] == 0,
    {
        MSRPm { bytes: filled(2 * PAGE_SIZE, 0) }
    }

    /// A map that intercepts every access.
    pub fn intercept_all() -> (r: Self)
        ensures
            r.wf(),
            forall|i: int| 0 <= i < r@.len() ==> #[trigger] r@[i] == 0xff,
    {
        MSRPm { bytes: filled(2 * PAGE_SIZE, 0xff) }
    }

    /// The bytes of the map, as the processor reads them.
    pub fn as_bytes(&self) -> (r: &[u8])
        ensures
            r@ == self@,
    {
        self.bytes.as_slice()
    }

    /// Sets whether the read or write (`is_write`) of `msr` exits, leaving every other bit.
    pub fn set_intercept(&mut self, msr: u32, is_write: bool, intercept: bool)
        requires
            old(self).wf(),
            msr_in_range(msr),
        ensures
            final(self).wf(),
            final(self).intercepts(msr, is_write) == intercept,
            forall|j: int|
                0 <= j < 2 * PAGE_SIZE * 8 && j != msrpm_bit(msr, is_write) ==> #[trigger] bit_of(
                    final(self)@,
                    j,
                ) == bit_of(old(self)@, j),
    {
        let segment: u32 = if msr <= 0x1fff {
            0
        } else if msr <= 0xc000_1fff {
            1
        } else {
            2
        };
        assert(msr & 0x1fff == msr % 0x2000) by (bit_vector);
        let msr_low = msr & 0x1fff;
        let bit = (segment * 2048 * 8 + msr_low * 2 + if is_write {
            1u32
        } else {
            0u32
        }) as usize;
        set_bit(&mut self.bytes, bit, intercept);
    }

    /// Sets whether reads of `msr` exit.
    pub fn set_read_intercept(&mut self, msr: u32, intercept: bool)
        requires
            old(self).wf(),
            msr_in_range(msr),
        ensures
            final(self).wf(),
            final(self).intercepts(msr, false) == intercept,
            forall|j: int|
                0 <= j < 2 * PAGE_SIZE * 8 && j != msrpm_bit(msr, false) ==> #[trigger] bit_of(
                    final(self)@,
                    j,
                ) == bit_of(old(self)@, j),
    {
        self.set_intercept(msr, false, intercept);
    }

    /// Sets whether writes of `msr` exit.
    pub fn set_write_intercept(&mut self, msr: u32, intercept: bool)
        requires
            old(self).wf(),
            msr_in_range(msr),
        ensures
            final(self).wf(),
            final(self).intercepts(msr, true) == intercept,
            forall|j: int|
                0 <= j < 2 * PAGE_SIZE * 8 && j != msrpm_bit(msr, true) ==> #[trigger] bit_of(
                    final(self)@,
                    j,
                ) == bit_of(old(self)@, j),
    {
        self.set_intercept(msr, true, intercept);
    }
}

/// Whether `msr` lies in one of the two ranges that a VT-x MSR bitmap covers.
pub open spec fn vmx_msr_in_range(msr: u32) -> bool {
    msr <= 0x1fff || (0xc000_0000 <= msr <= 0xc000_1fff)
}

/// Index of the bit of the VT-x MSR bitmap that controls reads or writes of `msr`:
/// reads of low MSRs, reads of high MSRs, writes of low, writes of high, 1 KiB each.
pub open spec fn vmx_msr_bit(msr: u32, is_write: bool) -> int {
    (if is_write {
        2048int * 8
    } else {
        0int
    }) + (if msr <= 0x1fff {
        0int
    } else {
        1024int * 8
    }) + msr as int % 0x2000
}

/// The VT-x MSR bitmap: one page.
pub struct MsrBitmap {
    bytes: Vec<u8>,
}

impl View for MsrBitmap {
    type V = Seq<u8>;

    closed spec fn view(&self) -> Seq<u8> {
        self.bytes@
    }
}

impl MsrBitmap {
    /// The bitmap has its page.
    pub open spec fn wf(&self) -> bool {
        self@.len() == PAGE_SIZE
    }

    /// Whether the access of `msr` (a write when `is_write`) exits.
    pub open spec fn intercepts(&self, msr: u32, is_write: bool) -> bool {
        bit_of(self@, vmx_msr_bit(msr, is_write))
    }

    /// A bitmap that lets every access through.
    pub fn passthrough_all() -> (r: Self)
        ensures
            r.wf(),
            forall|i: int| 0 <= i < r@.len() ==> #[trigger] r@[i] == 0,
    {
        MsrBitmap { bytes: filled(PAGE_SIZE, 0) }
    }

    /// The bytes of the bitmap, as the processor reads them.
    pub fn as_bytes(&self) -> (r: &[u8])
        ensures
            r@ == self@,
    {
        self.bytes.as_slice()
    }

    /// Sets whether the read or write (`is_write`) of `msr` exits, leaving every other bit.
    pub fn set_intercept(&mut self, msr: u32, is_write: bool, intercept: bool)
        requires
            old(self).wf(),
            vmx_msr_in_range(msr),
        ensures
            final(self).wf(),
            final(self).intercepts(msr, is_write) == intercept,
            forall|j: int|
                0 <= j < PAGE_SIZE * 8 && j != vmx_msr_bit(msr, is_write) ==> #[trigger] bit_of(
                    final(self)@,
                    j,
                ) == bit_of(old(self)@, j),
    {
        assert(msr & 0x1fff == msr % 0x2000) by (bit_vector);
        let base: u32 = if is_write {
            2048 * 8
        } else {
            0
        };
        let high: u32 = if msr <= 0x1fff {
            0
        } else {
            1024 * 8
        };
        let bit = (base + high + (msr & 0x1fff)) as usize;
        set_bit(&mut self.bytes, bit, intercept);
    }
}

} // verus!
