//! Deterministic pseudo-random draws for benchmark input generation.
//!
//! Every benchmark group compares its candidate implementations on identical
//! inputs, so all input batches come from a generator that is a pure function
//! of a fixed seed. The stream is rand's `StdRng` (the ChaCha12 block cipher
//! in the pinned rand version), whose output is a sequence of 32-bit words
//! determined by the seed alone; each draw below consumes a documented number
//! of those words, so the value of any draw is fixed by the seed and by the
//! word position at which it happens.

use vstd::prelude::*;

verus! {

/// The `u64` that `StdRng` hands back from `RngCore::next_u64` when the
/// generator was seeded with `seed` through `seed_from_u64` and has already
/// consumed `pos` 32-bit words of its output stream.
pub uninterp spec fn stream_u64(seed: u64, pos: nat) -> u64;

/// The `bool` that `StdRng` hands back from `Rng::gen::<bool>` when the
/// generator was seeded with `seed` through `seed_from_u64` and has already
/// consumed `pos` 32-bit words of its output stream.
pub uninterp spec fn stream_coin(seed: u64, pos: nat) -> bool;

#[verifier::external_type_specification]
#[verifier::external_body]
pub struct ExStdRng(rand::rngs::StdRng);

/// A seeded deterministic generator: rand's `StdRng` together with the seed
/// it was built from and the number of 32-bit words drawn so far, which
/// together pin down every future draw.
pub struct DetRng {
    inner: rand::rngs::StdRng,
    seed: Ghost<u64>,
    pos: Ghost<nat>,
}

impl DetRng {
    /// The seed this generator was built from.
    pub closed spec fn seed(self) -> u64 {
        self.seed@
    }

    /// How many 32-bit words of the output stream have been consumed.
    pub closed spec fn pos(self) -> nat {
        self.pos@
    }

    /// Relies on rand's `SeedableRng::seed_from_u64` for `StdRng`: the fresh
    /// generator state is a function of `seed` alone, with no word of the
    /// output stream consumed yet.
    #[verifier::external_body]
    pub fn seeded(seed: u64) -> (r: DetRng)
        ensures
            r.seed() == seed,
            r.pos() == 0,
    {
        DetRng {
            inner: <rand::rngs::StdRng as rand::SeedableRng>::seed_from_u64(seed),
            seed: Ghost(seed),
            pos: Ghost(0nat),
        }
    }

    /// Relies on rand's `RngCore::next_u64` for `StdRng`: it consumes exactly
    /// the next two 32-bit words of the output stream, and its result is a
    /// function of the seed and of the word position alone.
    #[verifier::external_body]
    pub fn next_u64(&mut self) -> (r: u64)
        ensures
            final(self).seed() == old(self).seed(),
            final(self).pos() == old(self).pos() + 2,
            r == stream_u64(old(self).seed(), old(self).pos()),
    {
        rand::RngCore::next_u64(&mut self.inner)
    }

    /// Relies on rand's `Standard` distribution for `bool`: sampling compares
    /// the sign bit of exactly one freshly drawn 32-bit word, so the result
    /// is a function of the seed and of the word position alone.
    #[verifier::external_body]
    pub fn coin(&mut self) -> (r: bool)
        ensures
            final(self).seed() == old(self).seed(),
            final(self).pos() == old(self).pos() + 1,
            r == stream_coin(old(self).seed(), old(self).pos()),
    {
        rand::Rng::gen::<bool>(&mut self.inner)
    }

    /// Relies on glam's `Standard` distribution for `Quat` (a uniformly
    /// distributed unit rotation, built from three bounded-range draws) and
    /// on `Transform::from_rotation`, which embeds the rotation into a full
    /// transform with default translation and scale. The bounded-range float
    /// draws may reject and redraw, so the number of words consumed varies
    /// and nothing is pinned about the stream position afterwards.
    #[verifier::external_body]
    pub fn next_rotation_transform(&mut self) -> (r: bevy_transform::components::Transform)
        ensures
            final(self).seed() == old(self).seed(),
    {
        bevy_transform::components::Transform::from_rotation(
            rand::Rng::gen::<glam::Quat>(&mut self.inner),
        )
    }

    /// Relies only on the identity of the wrapped generator: hand the
    /// underlying stream over to unverified setup code that wants to keep
    /// drawing domain values this crate cannot hold, in the same fixed
    /// draw order.
    #[verifier::external_body]
    pub fn into_inner(self) -> rand::rngs::StdRng {
        self.inner
    }

    /// One uniform-ish index below `bound`, derived from the next `u64` draw
    /// by remainder. Good enough for permutation-style access patterns; the
    /// slight bias of the remainder is irrelevant to throughput measurement.
    pub fn next_index(&mut self, bound: usize) -> (r: usize)
        requires
            bound >= 1,
        ensures
            final(self).seed() == old(self).seed(),
            final(self).pos() == old(self).pos() + 2,
            r == stream_u64(old(self).seed(), old(self).pos()) as int % bound as int,
            r < bound,
    {
        let w = self.next_u64();
        (w % (bound as u64)) as usize
    }
}

} // verus!
