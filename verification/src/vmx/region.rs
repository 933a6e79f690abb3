//! The pages that a virtual CPU hands to the processor.

use vstd::prelude::*;

verus! {

/// Size in bytes of an MSR bitmap: one page.
pub const MSR_BITMAP_SIZE: usize = 4096;

/// Where the control block of a virtual CPU lives and which revision it has.
#[derive(Clone, Copy, Debug, PartialEq, Eq, Structural)]
pub struct VmxRegion {
    /// Physical address of the page.
    pub phys_addr: usize,
    /// Revision identifier written at the start of the page.
    pub revision_id: u32,
}

/// Whether the MSR bitmap has a bit for `msr`: the architecture gives one to
/// the MSRs `0..=0x1fff` and `0xc000_0000..=0xc000_1fff`.
pub open spec fn msr_in_bitmap(msr: u32) -> bool {
    msr <= 0x1fff || (0xc000_0000 <= msr && msr <= 0xc000_1fff)
}

/// Number of the bit that decides whether an access to `msr` exits. The page
/// holds four bitmaps of 1024 bytes: reads of the low MSRs, reads of the high
/// MSRs, writes of the low MSRs, writes of the high MSRs.
pub open spec fn msr_bit(msr: u32, write: bool) -> int
    recommends
        msr_in_bitmap(msr),
{
    let quarter: int = if msr <= 0x1fff {
        if write {
            2
        } else {
            0
        }
    } else {
        if write {
            3
        } else {
            1
        }
    };
    let index: int = if msr <= 0x1fff {
        msr as int
    } else {
        msr - 0xc000_0000
    };
    quarter * 8192 + index
}

/// Whether bit `bit` of a bitmap is set: bit `bit % 8` of byte `bit / 8`.
pub open spec fn bit_set(bytes: Seq<u8>, bit: int) -> bool
    recommends
        0 <= bit < 8 * bytes.len(),
{
    (bytes[bit / 8] >> ((bit % 8) as u8)) & 1u8 == 1u8
}

/// Whether a bitmap makes the given access to `msr` exit.
pub open spec fn intercepts(bytes: Seq<u8>, msr: u32, write: bool) -> bool
    recommends
        msr_in_bitmap(msr),
        bytes.len() == MSR_BITMAP_SIZE,
{
    bit_set(bytes, msr_bit(msr, write))
}

/// The bitmap that tells the processor which MSR accesses of the guest exit.
#[derive(Debug)]
pub struct MsrBitmap {
    bytes: Vec<u8>,
    phys_addr: usize,
}

impl View for MsrBitmap {
    type V = Seq<u8>;

    closed spec fn view(&self) -> Seq<u8> {
        self.bytes@
    }
}

proof fn lemma_byte_bit(byte: u8, k: u8, j: u8)
    by (bit_vector)
    requires
        k < 8,
        j < 8,
    ensures
        ((byte | (1u8 << k)) >> j) & 1u8 == (if j == k {
            1u8
        } else {
            (byte >> j) & 1u8
        }),
        ((byte & !(1u8 << k)) >> j) & 1u8 == (if j == k {
            0u8
        } else {
            (byte >> j) & 1u8
        }),
        (0u8 >> j) & 1u8 == 0u8,
{
}

proof fn lemma_msr_index(msr: u32)
    by (bit_vector)
    requires
        msr <= 0x1fff || (0xc000_0000 <= msr && msr <= 0xc000_1fff),
    ensures
        msr <= 0x1fff ==> msr & 0x1fff == msr,
        msr > 0x1fff ==> msr & 0x1fff == msr - 0xc000_0000,
{
}

impl MsrBitmap {
    /// Whether the bitmap is one page long.
    pub open spec fn wf(&self) -> bool {
        self@.len() == MSR_BITMAP_SIZE
    }

    /// Physical address of the page that holds the bitmap.
    pub closed spec fn addr(&self) -> usize {
        self.phys_addr
    }

    /// A bitmap on the page at `phys_addr` under which no MSR access exits.
    pub fn passthrough_all(phys_addr: usize) -> (r: MsrBitmap)
        ensures
            r.wf(),
            r.addr() == phys_addr,
            forall|i: int| 0 <= i < MSR_BITMAP_SIZE ==> r@[i] == 0,
            forall|msr: u32, write: bool| msr_in_bitmap(msr) ==> !#[trigger] intercepts(r@, msr, write),
    {
        let mut bytes: Vec<u8> = Vec::new();
        let mut i: usize = 0;
        while i < MSR_BITMAP_SIZE
            invariant
                i <= MSR_BITMAP_SIZE,
                bytes@.len() == i,
                forall|j: int| 0 <= j < i ==> bytes@[j] == 0,
            decreases MSR_BITMAP_SIZE - i,
        {
            bytes.push(0);
            i = i + 1;
        }
        let r = MsrBitmap { bytes, phys_addr };
        assert forall|msr: u32, write: bool| msr_in_bitmap(msr) implies !intercepts(
            r@,
            msr,
            write,
        ) by {
            let bit = msr_bit(msr, write);
            lemma_byte_bit(0, 0, (bit % 8) as u8);
        }
        r
    }

    /// Physical address of the page that holds the bitmap.
    pub fn phys_addr(&self) -> (r: usize)
        ensures
            r == self.addr(),
    {
        self.phys_addr
    }

    /// The bytes of the bitmap, as the processor reads them from the page.
    pub fn as_bytes(&self) -> (r: &Vec<u8>)
        ensures
            r@ == self@,
    {
        &self.bytes
    }

    /// Whether the given access to `msr` exits under this bitmap.
    pub fn is_intercepted(&self, msr: u32, write: bool) -> (r: bool)
        requires
            self.wf(),
            msr_in_bitmap(msr),
        ensures
            r == intercepts(self@, msr, write),
    {
        let quarter: usize = if msr <= 0x1fff {
            if write {
                2
            } else {
                0
            }
        } else {
            if write {
                3
            } else {
                1
            }
        };
        let low: u32 = msr & 0x1fff;
        proof {
            lemma_msr_index(msr);
        }
        let byte: usize = quarter * 1024 + (low / 8) as usize;
        let bit: u8 = (low % 8) as u8;
        assert(byte == msr_bit(msr, write) / 8);
        assert(bit == msr_bit(msr, write) % 8);
        (self.bytes[byte] >> bit) & 1u8 == 1u8
    }

    /// Makes reads of `msr` by the guest exit, or lets them through.
    pub fn set_read_intercept(&mut self, msr: u32, intercept: bool)
        requires
            old(self).wf(),
            msr_in_bitmap(msr),
        ensures
            final(self).wf(),
            final(self).addr() == old(self).addr(),
            forall|m: u32, w: bool|
                msr_in_bitmap(m) ==> #[trigger] intercepts(final(self)@, m, w) == (if m == msr && !w {
                    intercept
                } else {
                    intercepts(old(self)@, m, w)
                }),
    {
        self.set_intercept(msr, false, intercept);
    }

    /// Makes writes of `msr` by the guest exit, or lets them through.
    pub fn set_write_intercept(&mut self, msr: u32, intercept: bool)
        requires
            old(self).wf(),
            msr_in_bitmap(msr),
        ensures
            final(self).wf(),
            final(self).addr() == old(self).addr(),
            forall|m: u32, w: bool|
                msr_in_bitmap(m) ==> #[trigger] intercepts(final(self)@, m, w) == (if m == msr && w {
                    intercept
                } else {
                    intercepts(old(self)@, m, w)
                }),
    {
        self.set_intercept(msr, true, intercept);
    }

    fn set_intercept(&mut self, msr: u32, is_write: bool, intercept: bool)
        requires
            old(self).wf(),
            msr_in_bitmap(msr),
        ensures
            final(self).wf(),
            final(self).addr() == old(self).addr(),
            forall|m: u32, w: bool|
                msr_in_bitmap(m) ==> #[trigger] intercepts(final(self)@, m, w) == (if m == msr && w
                    == is_write {
                    intercept
                } else {
                    intercepts(old(self)@, m, w)
                }),
    {
        let quarter: usize = if msr <= 0x1fff {
            if is_write {
                2
            } else {
                0
            }
        } else {
            if is_write {
                3
            } else {
                1
            }
        };
        let low: u32 = msr & 0x1fff;
        proof {
            lemma_msr_index(msr);
        }
        let byte: usize = quarter * 1024 + (low / 8) as usize;
        let bit: u8 = (low % 8) as u8;
        assert(byte == msr_bit(msr, is_write) / 8);
        assert(bit == msr_bit(msr, is_write) % 8);
        let before: u8 = self.bytes[byte];
        let after: u8 = if intercept {
            before | (1u8 << bit)
        } else {
            before & !(1u8 << bit)
        };
        self.bytes.set(byte, after);
        assert forall|m: u32, w: bool| msr_in_bitmap(m) implies intercepts(self@, m, w) == (if m
            == msr && w == is_write {
            intercept
        } else {
            intercepts(old(self)@, m, w)
        }) by {
            let other = msr_bit(m, w);
            lemma_byte_bit(before, bit, (other % 8) as u8);
        }
    }
}

} // verus!
