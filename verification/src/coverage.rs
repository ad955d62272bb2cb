//! Multi-sample anti-aliasing coverage mask: one bit per sub-pixel sample of
//! the pixel currently being rasterized.

use vstd::prelude::*;

verus! {

/// Number of sub-pixel samples taken per pixel.
pub const N_MSAA_SAMPLES: usize = 4;

/// Records which sub-pixel samples of one pixel are covered by the current
/// triangle. Bit `i` stands for sample `i` of the rotated-grid pattern.
#[derive(Copy, Clone, Debug)]
pub struct CoverageMask {
    pub mask: u8,
}

impl CoverageMask {
    /// Whether sample `i` is covered, as the mask's bits say it.
    pub open spec fn spec_get(self, i: int) -> bool {
        (self.mask >> (i as u8)) & 1u8 == 1u8
    }

    /// Only the bits that stand for samples may be set.
    pub open spec fn wf(self) -> bool {
        self.mask < 0x10u8
    }

    /// The number of samples a mask has one bit for.
    pub fn len() -> (r: u8)
        ensures
            r == N_MSAA_SAMPLES,
    {
        N_MSAA_SAMPLES as u8
    }

    /// The empty mask: no sample covered.
    pub fn new() -> (r: CoverageMask)
        ensures
            r.wf(),
            forall|i: int| 0 <= i < N_MSAA_SAMPLES ==> !r.spec_get(i),
    {
        let r = CoverageMask { mask: 0u8 };
        proof {
            assert forall|i: int| 0 <= i < N_MSAA_SAMPLES implies !r.spec_get(i) by {
                let j = i as u8;
                assert((0u8 >> j) & 1u8 == 0u8) by (bit_vector);
            }
        }
        r
    }

    /// Whether any sample at all is covered.
    pub fn any(&self) -> (r: bool)
        requires
            self.wf(),
        ensures
            r == exists|i: int| 0 <= i < N_MSAA_SAMPLES && self.spec_get(i),
    {
        proof {
            let m = self.mask;
            if m != 0 {
                assert((m >> 0) & 1 == 1 || (m >> 1) & 1 == 1 || (m >> 2) & 1 == 1 || (m >> 3)
                    & 1 == 1) by (bit_vector)
                    requires
                        m < 0x10u8,
                        m != 0u8,
                ;
                assert(self.spec_get(0) || self.spec_get(1) || self.spec_get(2) || self.spec_get(
                    3,
                ));
            } else {
                assert forall|i: int| 0 <= i < N_MSAA_SAMPLES implies !self.spec_get(i) by {
                    let j = i as u8;
                    assert((0u8 >> j) & 1u8 == 0u8) by (bit_vector);
                }
            }
        }
        self.mask != 0
    }

    /// Whether every sample is covered.
    pub fn all(&self) -> (r: bool)
        requires
            self.wf(),
        ensures
            r == forall|i: int| 0 <= i < N_MSAA_SAMPLES ==> self.spec_get(i),
    {
        proof {
            let m = self.mask;
            if m == 0b1111u8 {
                assert forall|i: int| 0 <= i < N_MSAA_SAMPLES implies self.spec_get(i) by {
                    let j = i as u8;
                    assert((0b1111u8 >> j) & 1u8 == 1u8) by (bit_vector)
                        requires
                            j < 4u8,
                    ;
                }
            } else {
                assert((m >> 0) & 1 == 0 || (m >> 1) & 1 == 0 || (m >> 2) & 1 == 0 || (m >> 3)
                    & 1 == 0) by (bit_vector)
                    requires
                        m < 0x10u8,
                        m != 0b1111u8,
                ;
                assert(!self.spec_get(0) || !self.spec_get(1) || !self.spec_get(2)
                    || !self.spec_get(3));
            }
        }
        self.mask == 0b1111u8
    }

    /// Whether no sample is covered.
    pub fn empty(&self) -> (r: bool)
        requires
            self.wf(),
        ensures
            r == forall|i: int| 0 <= i < N_MSAA_SAMPLES ==> !self.spec_get(i),
    {
        proof {
            let m = self.mask;
            if m == 0 {
                assert forall|i: int| 0 <= i < N_MSAA_SAMPLES implies !self.spec_get(i) by {
                    let j = i as u8;
                    assert((0u8 >> j) & 1u8 == 0u8) by (bit_vector);
                }
            } else {
                assert((m >> 0) & 1 == 1 || (m >> 1) & 1 == 1 || (m >> 2) & 1 == 1 || (m >> 3)
                    & 1 == 1) by (bit_vector)
                    requires
                        m < 0x10u8,
                        m != 0u8,
                ;
                assert(self.spec_get(0) || self.spec_get(1) || self.spec_get(2) || self.spec_get(
                    3,
                ));
            }
        }
        self.mask == 0u8
    }

    /// Reads the coverage bit of sample `i`.
    pub fn get(&self, i: u8) -> (r: bool)
        requires
            i < N_MSAA_SAMPLES,
        ensures
            r == self.spec_get(i as int),
    {
        proof {
            let m = self.mask;
            assert(((1u8 << i) & m != 0) <==> ((m >> i) & 1 == 1)) by (bit_vector)
                requires
                    i < 4u8,
            ;
        }
        ((1u8 << i) & self.mask) != 0
    }

    /// Writes the coverage bit of sample `i`, leaving the other samples as
    /// they were.
    pub fn set(&mut self, i: u8, v: bool)
        requires
            old(self).wf(),
            i < N_MSAA_SAMPLES,
        ensures
            final(self).wf(),
            final(self).spec_get(i as int) == v,
            forall|j: int|
                0 <= j < N_MSAA_SAMPLES && j != i ==> final(self).spec_get(j) == old(
                    self,
                ).spec_get(j),
    {
        let b: u8 = if v {
            1
        } else {
            0
        };
        let ghost m = self.mask;
        self.mask = (self.mask & (!(1u8 << i))) | (b << i);
        proof {
            let m2 = self.mask;
            assert(((m2 >> i) & 1 == 1) == (b == 1u8) && m2 < 0x10u8) by (bit_vector)
                requires
                    i < 4u8,
                    b == 0u8 || b == 1u8,
                    m < 0x10u8,
                    m2 == (m & (!(1u8 << i))) | (b << i),
            ;
            assert forall|j: int|
                0 <= j < N_MSAA_SAMPLES && j != i implies final(self).spec_get(j) == old(
                self,
            ).spec_get(j) by {
                let ju = j as u8;
                assert(((m2 >> ju) & 1 == 1) == ((m >> ju) & 1 == 1)) by (bit_vector)
                    requires
                        i < 4u8,
                        ju < 4u8,
                        ju != i,
                        b == 0u8 || b == 1u8,
                        m2 == (m & (!(1u8 << i))) | (b << i),
                ;
            }
        }
    }
}

} // verus!
