//! Reproducible input batches drawn from a seeded generator.
//!
//! A batch is generated once per benchmark group, in a fixed draw order, and
//! is then shared read-only by every candidate of the group. The contracts
//! tie each element of a batch to the seed and to the stream position of the
//! draw that produced it, so regenerating a batch with the same seed, start
//! position and count provably yields the identical contents.

use vstd::prelude::*;

use crate::rng::{stream_u64, DetRng};

verus! {

/// The batch of `count` values that consecutive `u64` draws yield from a
/// generator seeded with `seed` that has already consumed `start` words.
pub open spec fn u64_batch(seed: u64, start: nat, count: nat) -> Seq<u64> {
    Seq::new(count, |i: int| stream_u64(seed, (start + 2 * i) as nat))
}

/// An ordered batch of `count` pseudo-random `u64` values in a fixed draw
/// order. A count of 0 yields an empty batch.
pub fn random_array(rng: &mut DetRng, count: usize) -> (r: Vec<u64>)
    ensures
        final(rng).seed() == old(rng).seed(),
        final(rng).pos() == old(rng).pos() + 2 * count,
        r@ == u64_batch(old(rng).seed(), old(rng).pos(), count as nat),
{
    let ghost seed0 = rng.seed();
    let ghost pos0 = rng.pos();
    let mut out: Vec<u64> = Vec::new();
    let mut i: usize = 0;
    while i < count
        invariant
            i <= count,
            out@.len() == i,
            rng.seed() == seed0,
            rng.pos() == pos0 + 2 * i,
            forall|j: int| 0 <= j < i ==> out@[j] == stream_u64(seed0, (pos0 + 2 * j) as nat),
        decreases count - i,
    {
        let w = rng.next_u64();
        out.push(w);
        i += 1;
    }
    proof {
        assert(out@ =~= u64_batch(seed0, pos0, count as nat));
    }
    out
}

/// An ordered batch of `count` pseudo-random indices, each below `bound`,
/// for permutation-style indirect access patterns. A count of 0 yields an
/// empty batch.
pub fn random_index_array(rng: &mut DetRng, count: usize, bound: usize) -> (r: Vec<usize>)
    requires
        bound >= 1,
    ensures
        final(rng).seed() == old(rng).seed(),
        final(rng).pos() == old(rng).pos() + 2 * count,
        r@.len() == count,
        forall|j: int|
            0 <= j < count ==> r@[j] == stream_u64(
                old(rng).seed(),
                (old(rng).pos() + 2 * j) as nat,
            ) as int % bound as int,
        forall|j: int| 0 <= j < count ==> r@[j] < bound,
{
    let ghost seed0 = rng.seed();
    let ghost pos0 = rng.pos();
    let mut out: Vec<usize> = Vec::new();
    let mut i: usize = 0;
    while i < count
        invariant
            i <= count,
            bound >= 1,
            out@.len() == i,
            rng.seed() == seed0,
            rng.pos() == pos0 + 2 * i,
            forall|j: int|
                0 <= j < i ==> out@[j] == stream_u64(seed0, (pos0 + 2 * j) as nat) as int
                    % bound as int,
            forall|j: int| 0 <= j < i ==> out@[j] < bound,
        decreases count - i,
    {
        let x = rng.next_index(bound);
        out.push(x);
        i += 1;
    }
    out
}

/// Seed a fresh generator, advance it `draws` times, then hand back one more
/// draw as the value a measurement loop observes to defeat dead-code
/// elimination. The result is pinned to the seed and the draw count, so a
/// run of this loop is reproducible bit for bit.
pub fn draw_run(seed: u64, draws: u64) -> (r: u64)
    ensures
        r == stream_u64(seed, 2 * draws as nat),
{
    let mut rng = DetRng::seeded(seed);
    let mut i: u64 = 0;
    while i < draws
        invariant
            i <= draws,
            rng.seed() == seed,
            rng.pos() == 2 * i,
        decreases draws - i,
    {
        let _ = rng.next_u64();
        i += 1;
    }
    rng.next_u64()
}

/// Replaying generation with the same seed, the same start position and the
/// same count yields the identical batch: generation is deterministic, so
/// every run and every re-run of a benchmark group compares its candidates
/// on bit-identical inputs.
pub proof fn lemma_batch_deterministic(
    seed1: u64,
    seed2: u64,
    start1: nat,
    start2: nat,
    count1: nat,
    count2: nat,
)
    requires
        seed1 == seed2,
        start1 == start2,
        count1 == count2,
    ensures
        u64_batch(seed1, start1, count1) == u64_batch(seed2, start2, count2),
{
}

} // verus!
