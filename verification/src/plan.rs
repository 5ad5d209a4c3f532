//! Parameter grids and fixed configuration of a measurement session.
//!
//! Each benchmark group runs once per parameterization: a cache tier (and
//! the element count that saturates it), a worker count, or a fixed element
//! count. The constants here are the session's implicit configuration; they
//! are deliberately fixed so results stay comparable across machines and
//! runs.

use vstd::prelude::*;

use crate::sizing::{sized_count, CacheTier};

verus! {

/// The fixed seed every group generates its inputs from.
pub const DEFAULT_SEED: u64 = 1234;

/// Draws per sample of the generator-scaling group.
pub const DRAW_ITERATIONS: u64 = 100_000_000;

/// Samples per sub-benchmark of the generator-scaling group (flat sampling).
pub const DRAW_SAMPLE_COUNT: u64 = 10;

/// Warm-up seconds for the generator-scaling group.
pub const DRAW_WARMUP_SECS: u64 = 2;

/// Measurement-window seconds for the generator-scaling group.
pub const DRAW_MEASUREMENT_SECS: u64 = 4;

/// Element count of the sequential easing group.
pub const EASING_COUNT: usize = 32 * 1024;

/// Element count of the indirect (permuted-access) easing group.
pub const EASING_INDIRECT_COUNT: usize = 4 * 1024;

/// One size parameterization of a measurement group: the tier it targets
/// and the element count that saturates that tier.
#[derive(Clone, Copy, PartialEq, Eq, Structural, Debug)]
pub struct SizeParam {
    pub tier: CacheTier,
    pub count: usize,
}

/// The element counts a group with per-record byte size `footprint` runs
/// at, one per cache tier whose capacity holds at least one record, in
/// L1, L2, L3, main-memory order. A tier too small for a single record is a
/// degenerate parameterization and is skipped rather than run at count 0.
pub open spec fn spec_size_params(footprint: usize) -> Seq<SizeParam>
    recommends
        footprint >= 1,
{
    spec_tier_entry(CacheTier::L1, footprint) + spec_tier_entry(CacheTier::L2, footprint)
        + spec_tier_entry(CacheTier::L3, footprint) + spec_tier_entry(CacheTier::Ram, footprint)
}

/// The entry a single tier contributes: its saturating count, or nothing
/// when not even one record fits.
pub open spec fn spec_tier_entry(tier: CacheTier, footprint: usize) -> Seq<SizeParam>
    recommends
        footprint >= 1,
{
    if tier.spec_capacity_bytes() as int / footprint as int >= 1 {
        seq![
            SizeParam {
                tier,
                count: (tier.spec_capacity_bytes() as int / footprint as int) as usize,
            },
        ]
    } else {
        Seq::empty()
    }
}

/// Build the size grid for a group whose inner loop touches `footprint`
/// bytes per element: one entry per tier that holds at least one record,
/// with the exact saturating count, in tier order.
pub fn size_params(footprint: usize) -> (r: Vec<SizeParam>)
    requires
        footprint >= 1,
    ensures
        r@ == spec_size_params(footprint),
        forall|k: int|
            0 <= k < r@.len() ==> (#[trigger] r@[k]).count == r@[k].tier.spec_capacity_bytes()
                as int / footprint as int && r@[k].count >= 1,
{
    let mut out: Vec<SizeParam> = Vec::new();
    let l1 = sized_count(footprint, CacheTier::L1.capacity_bytes());
    if l1 >= 1 {
        out.push(SizeParam { tier: CacheTier::L1, count: l1 });
    }
    let l2 = sized_count(footprint, CacheTier::L2.capacity_bytes());
    if l2 >= 1 {
        out.push(SizeParam { tier: CacheTier::L2, count: l2 });
    }
    let l3 = sized_count(footprint, CacheTier::L3.capacity_bytes());
    if l3 >= 1 {
        out.push(SizeParam { tier: CacheTier::L3, count: l3 });
    }
    let ram = sized_count(footprint, CacheTier::Ram.capacity_bytes());
    if ram >= 1 {
        out.push(SizeParam { tier: CacheTier::Ram, count: ram });
    }
    proof {
        assert(out@ =~= spec_size_params(footprint));
    }
    out
}

/// The worker counts the generator-scaling group runs at: 1 up to and
/// including the detected hardware parallelism, so per-core scaling can be
/// read off directly.
pub fn thread_counts(max_workers: usize) -> (r: Vec<usize>)
    ensures
        r@.len() == max_workers,
        forall|k: int| 0 <= k < max_workers ==> r@[k] == k + 1,
{
    let mut out: Vec<usize> = Vec::new();
    let mut i: usize = 0;
    while i < max_workers
        invariant
            i <= max_workers,
            out@.len() == i,
            forall|k: int| 0 <= k < i ==> out@[k] == k + 1,
        decreases max_workers - i,
    {
        out.push(i + 1);
        i += 1;
    }
    out
}

/// The byte counts the raw-copy group moves, one per tier: the copy is
/// measured moving a whole tier's capacity, split into a source and a
/// destination buffer of half the capacity each.
pub fn copy_buffer_len(tier: CacheTier) -> (r: usize)
    ensures
        r == tier.spec_capacity_bytes() as int / 2,
{
    tier.capacity_bytes() / 2
}

} // verus!
