//! The raw-copy kernel and its buffers.
//!
//! The copy group measures moving a whole cache tier's worth of bytes from
//! one buffer into another of the same length. The kernel itself must stay
//! the standard library's block copy — a hand-written byte loop would
//! measure something else — so the call is trusted and the surrounding
//! batch setup and the candidate's contract are verified.

use vstd::prelude::*;

verus! {

/// Relies on `<[u8]>::clone_from_slice`: with equal lengths it overwrites
/// the destination with a byte-for-byte copy of the source.
#[verifier::external_body]
fn clone_bytes_from(dst: &mut Vec<u8>, src: &Vec<u8>)
    requires
        old(dst)@.len() == src@.len(),
    ensures
        final(dst)@ == src@,
{
    dst.as_mut_slice().clone_from_slice(src.as_slice())
}

/// The copy candidate: overwrite `dst` with the contents of `src`, which
/// must have the same length. Afterwards the destination equals the source
/// byte for byte.
pub fn copy_candidate(dst: &mut Vec<u8>, src: &Vec<u8>)
    requires
        old(dst)@.len() == src@.len(),
    ensures
        final(dst)@ == src@,
{
    clone_bytes_from(dst, src);
}

/// A fresh all-zero byte buffer of length `len`, the initial state of both
/// buffers of a copy sub-benchmark.
pub fn zeroed_bytes(len: usize) -> (r: Vec<u8>)
    ensures
        r@.len() == len,
        forall|i: int| 0 <= i < len ==> r@[i] == 0,
{
    let mut out: Vec<u8> = Vec::new();
    let mut i: usize = 0;
    while i < len
        invariant
            i <= len,
            out@.len() == i,
            forall|j: int| 0 <= j < i ==> out@[j] == 0,
        decreases len - i,
    {
        out.push(0);
        i += 1;
    }
    out
}

} // verus!
