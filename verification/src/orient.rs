//! Orientation values as component bit patterns, and the derived input
//! distributions the interpolation benchmarks need.
//!
//! The kernels under measurement blend 4-component orientations
//! (unit-quaternion-like values). Their floating-point arithmetic cannot
//! stand in this crate; what can is the bit level at which the harness
//! derives its special input distributions: an orientation is held as the
//! IEEE 754 bit patterns of its four single-precision components. The
//! "positive" distribution clears every sign bit, which is exactly what
//! taking the absolute value of each component does, and the
//! "duplicate-pair" distribution overwrites elements of one array with the
//! other's under a fair coin, to force the near-identical special case of
//! the blend kernels.

use vstd::prelude::*;

use crate::rng::{stream_coin, DetRng};

verus! {

/// Bit pattern of single-precision 1.0.
pub const ONE_BITS: u32 = 0x3F80_0000;

/// Mask that keeps everything but the IEEE 754 sign bit of a component.
pub const SIGN_MASK: u32 = 0x7FFF_FFFF;

/// A 4-component orientation held as the bit patterns of its components.
#[derive(Clone, Copy, PartialEq, Eq, Structural, Debug)]
pub struct Orientation {
    pub x: u32,
    pub y: u32,
    pub z: u32,
    pub w: u32,
}

impl Orientation {
    /// The identity orientation: x, y and z are 0.0 and w is 1.0.
    pub open spec fn spec_identity() -> Orientation {
        Orientation { x: 0, y: 0, z: 0, w: ONE_BITS }
    }

    /// The identity orientation: x, y and z are 0.0 and w is 1.0.
    pub fn identity() -> (r: Orientation)
        ensures
            r == Orientation::spec_identity(),
    {
        Orientation { x: 0, y: 0, z: 0, w: ONE_BITS }
    }

    /// Whether every component has its sign bit clear, which read as a
    /// single-precision value means every component is non-negative.
    pub open spec fn all_components_nonnegative(self) -> bool {
        self.x < 0x8000_0000 && self.y < 0x8000_0000 && self.z < 0x8000_0000 && self.w
            < 0x8000_0000
    }

    /// This orientation with every component's sign bit cleared.
    pub open spec fn spec_positive(self) -> Orientation {
        Orientation {
            x: self.x & SIGN_MASK,
            y: self.y & SIGN_MASK,
            z: self.z & SIGN_MASK,
            w: self.w & SIGN_MASK,
        }
    }

    /// The same orientation with every component replaced by its absolute
    /// value: clearing the sign bit is exactly `abs` on the component's
    /// single-precision reading. The result never exercises a
    /// sign-disambiguation branch in a blend kernel.
    pub fn to_positive(self) -> (r: Orientation)
        ensures
            r == self.spec_positive(),
            r.all_components_nonnegative(),
    {
        proof {
            lemma_sign_clear(self.x);
            lemma_sign_clear(self.y);
            lemma_sign_clear(self.z);
            lemma_sign_clear(self.w);
        }
        Orientation {
            x: self.x & SIGN_MASK,
            y: self.y & SIGN_MASK,
            z: self.z & SIGN_MASK,
            w: self.w & SIGN_MASK,
        }
    }
}

/// Clearing the top bit of a component leaves a value below 2^31: the sign
/// bit of the result is always zero.
pub proof fn lemma_sign_clear(c: u32)
    ensures
        c & SIGN_MASK < 0x8000_0000,
{
    assert(c & 0x7FFF_FFFF < 0x8000_0000) by (bit_vector);
}

/// Every element of the batch that `to_positive` maps an input batch to has
/// all four sign bits clear: the whole derived distribution is non-negative.
pub fn to_positive_array(src: &Vec<Orientation>) -> (r: Vec<Orientation>)
    ensures
        r@.len() == src@.len(),
        forall|i: int| 0 <= i < src@.len() ==> r@[i] == (#[trigger] src@[i]).spec_positive(),
        forall|i: int| 0 <= i < r@.len() ==> (#[trigger] r@[i]).all_components_nonnegative(),
{
    let mut out: Vec<Orientation> = Vec::new();
    let mut i: usize = 0;
    while i < src.len()
        invariant
            i <= src@.len(),
            out@.len() == i,
            forall|j: int| 0 <= j < i ==> out@[j] == (#[trigger] src@[j]).spec_positive(),
            forall|j: int| 0 <= j < i ==> (#[trigger] out@[j]).all_components_nonnegative(),
        decreases src@.len() - i,
    {
        let p = src[i].to_positive();
        out.push(p);
        i += 1;
    }
    out
}

/// A fresh output batch of `count` identity orientations, the state every
/// blend sub-benchmark starts from before its first timed overwrite.
pub fn identity_array(count: usize) -> (r: Vec<Orientation>)
    ensures
        r@.len() == count,
        forall|i: int| 0 <= i < count ==> r@[i] == Orientation::spec_identity(),
{
    let mut out: Vec<Orientation> = Vec::new();
    let mut i: usize = 0;
    while i < count
        invariant
            i <= count,
            out@.len() == i,
            forall|j: int| 0 <= j < i ==> out@[j] == Orientation::spec_identity(),
        decreases count - i,
    {
        out.push(Orientation::identity());
        i += 1;
    }
    out
}

/// Overwrite each element of `left` with the matching element of `right`
/// under a fair coin, element by element in index order.
///
/// Afterwards every index holds either an exact duplicate of `right` or the
/// original, independently drawn `left` element — the distribution that
/// forces the near-identical special case of a blend kernel on roughly half
/// of the inputs. Which of the two each index holds is pinned to the coin
/// stream, so the pairing is reproducible from the seed.
pub fn pair_duplicates(left: &mut Vec<Orientation>, right: &Vec<Orientation>, rng: &mut DetRng)
    requires
        old(left)@.len() == right@.len(),
    ensures
        final(left)@.len() == old(left)@.len(),
        final(rng).seed() == old(rng).seed(),
        final(rng).pos() == old(rng).pos() + old(left)@.len(),
        forall|i: int|
            0 <= i < old(left)@.len() ==> final(left)@[i] == (if stream_coin(
                old(rng).seed(),
                (old(rng).pos() + i) as nat,
            ) {
                right@[i]
            } else {
                old(left)@[i]
            }),
        forall|i: int|
            0 <= i < old(left)@.len() ==> final(left)@[i] == right@[i] || final(left)@[i] == old(
                left,
            )@[i],
{
    let ghost left0 = left@;
    let ghost seed0 = rng.seed();
    let ghost pos0 = rng.pos();
    let n = left.len();
    let mut i: usize = 0;
    while i < n
        invariant
            i <= n,
            n == left0.len(),
            n == right@.len(),
            left@.len() == n,
            rng.seed() == seed0,
            rng.pos() == pos0 + i,
            forall|j: int|
                i <= j < n ==> left@[j] == left0[j],
            forall|j: int|
                0 <= j < i ==> left@[j] == (if stream_coin(seed0, (pos0 + j) as nat) {
                    right@[j]
                } else {
                    left0[j]
                }),
        decreases n - i,
    {
        let duplicate = rng.coin();
        if duplicate {
            let v = right[i];
            left[i] = v;
        }
        i += 1;
    }
}

} // verus!
