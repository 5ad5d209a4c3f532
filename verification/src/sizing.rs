//! Cache-tier-aware sizing of benchmark input batches.
//!
//! Throughput measurements are parameterized by how much data the inner loop
//! touches, so that a run can stress one level of the memory hierarchy at a
//! time. The tier capacities are fixed configuration constants representative
//! of contemporary desktop and server processors; they are not discovered
//! from the live machine.

use vstd::prelude::*;

verus! {

/// Bytes that comfortably fit in L1 on reasonably modern x86.
pub const L1_BYTES: usize = 16 * 1024;

/// Bytes that comfortably fit in L2 on AMD Zen 4.
pub const L2_BYTES: usize = 512 * 1024;

/// Bytes that comfortably fit in L3 on a desktop part.
pub const L3_BYTES: usize = 16 * 1024 * 1024;

/// A working-set size that clearly spills to main memory.
pub const RAM_BYTES: usize = 512 * 1024 * 1024;

/// A named tier of the memory hierarchy that a measurement group can be
/// parameterized against.
#[derive(Clone, Copy, PartialEq, Eq, Structural, Debug)]
pub enum CacheTier {
    L1,
    L2,
    L3,
    Ram,
}

impl CacheTier {
    /// The configured capacity of this tier in bytes.
    pub open spec fn spec_capacity_bytes(self) -> usize {
        match self {
            CacheTier::L1 => L1_BYTES,
            CacheTier::L2 => L2_BYTES,
            CacheTier::L3 => L3_BYTES,
            CacheTier::Ram => RAM_BYTES,
        }
    }

    /// The tier's name as it appears in sub-benchmark labels.
    pub open spec fn spec_name(self) -> Seq<char> {
        match self {
            CacheTier::L1 => "L1"@,
            CacheTier::L2 => "L2"@,
            CacheTier::L3 => "L3"@,
            CacheTier::Ram => "RAM"@,
        }
    }

    /// The tier's name as it appears in sub-benchmark labels.
    pub fn name(self) -> (r: &'static str)
        ensures
            r@ == self.spec_name(),
    {
        match self {
            CacheTier::L1 => "L1",
            CacheTier::L2 => "L2",
            CacheTier::L3 => "L3",
            CacheTier::Ram => "RAM",
        }
    }

    /// The configured capacity of this tier in bytes.
    #[verifier::when_used_as_spec(spec_capacity_bytes)]
    pub fn capacity_bytes(self) -> (r: usize)
        ensures
            r == self.spec_capacity_bytes(),
    {
        match self {
            CacheTier::L1 => L1_BYTES,
            CacheTier::L2 => L2_BYTES,
            CacheTier::L3 => L3_BYTES,
            CacheTier::Ram => RAM_BYTES,
        }
    }
}

/// How many whole records of `footprint` bytes fit in `capacity` bytes.
///
/// The footprint is the summed per-element byte size of every array the
/// inner loop touches per iteration; the result is the element count that
/// saturates the tier. A record larger than the whole tier yields 0, which
/// callers treat as a degenerate parameterization to skip.
pub fn sized_count(footprint: usize, capacity: usize) -> (r: usize)
    requires
        footprint >= 1,
    ensures
        r == capacity as int / footprint as int,
        footprint > capacity ==> r == 0,
        footprint <= capacity ==> r >= 1,
{
    proof {
        lemma_sized_count_range(footprint as int, capacity as int);
    }
    capacity / footprint
}

/// How many values of `footprint` bytes each fit in L1.
pub fn l1_sized_count(footprint: usize) -> (r: usize)
    requires
        footprint >= 1,
    ensures
        r == L1_BYTES as int / footprint as int,
{
    sized_count(footprint, L1_BYTES)
}

/// How many values of `footprint` bytes each fit in L2.
pub fn l2_sized_count(footprint: usize) -> (r: usize)
    requires
        footprint >= 1,
    ensures
        r == L2_BYTES as int / footprint as int,
{
    sized_count(footprint, L2_BYTES)
}

/// A record larger than the whole capacity yields a zero count, and a record
/// no larger than the capacity yields at least one: the sized count is the
/// exact floor of `capacity / footprint`, never rounded up.
pub proof fn lemma_sized_count_range(footprint: int, capacity: int)
    requires
        footprint >= 1,
        capacity >= 0,
    ensures
        footprint > capacity ==> capacity / footprint == 0,
        footprint <= capacity ==> capacity / footprint >= 1,
{
    if footprint > capacity {
        vstd::arithmetic::div_mod::lemma_basic_div(capacity, footprint);
    } else {
        vstd::arithmetic::div_mod::lemma_div_by_self(footprint);
        vstd::arithmetic::div_mod::lemma_div_is_ordered(footprint, capacity, footprint);
    }
}

} // verus!
