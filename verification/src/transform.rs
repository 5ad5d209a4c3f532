//! Batches of full 3D transforms for the compose-and-renormalize groups.
//!
//! A transform (rotation, translation, scale) is a value of the math library
//! under measurement; its floating-point content is opaque here. The batch
//! structure around it is not: a group's input arrays are generated once,
//! to the exact element count its tier parameterization asks for, from the
//! shared seeded generator.

use vstd::prelude::*;

use crate::rng::DetRng;

verus! {

#[verifier::external_type_specification]
#[verifier::external_body]
pub struct ExTransform(bevy_transform::components::Transform);

/// An ordered batch of `count` random-rotation transforms in a fixed draw
/// order, sampled through the math library's own uniform-rotation
/// distribution. A count of 0 yields an empty batch and consumes nothing
/// from the generator.
pub fn random_transform_array(rng: &mut DetRng, count: usize) -> (r: Vec<
    bevy_transform::components::Transform,
>)
    ensures
        final(rng).seed() == old(rng).seed(),
        r@.len() == count,
        count == 0 ==> final(rng).pos() == old(rng).pos(),
{
    let mut out: Vec<bevy_transform::components::Transform> = Vec::new();
    let mut i: usize = 0;
    while i < count
        invariant
            i <= count,
            out@.len() == i,
            rng.seed() == old(rng).seed(),
            i == 0 ==> rng.pos() == old(rng).pos(),
        decreases count - i,
    {
        let t = rng.next_rotation_transform();
        out.push(t);
        i += 1;
    }
    out
}

} // verus!
