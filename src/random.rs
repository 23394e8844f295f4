use vstd::prelude::*;

verus! {

/// Relies on `rand::random_range` (thread-local generator): a value drawn
/// from `0..bound`, which must not be empty.
#[verifier::external_body]
pub(crate) fn random_below(bound: u32) -> (r: u32)
    requires
        bound > 0,
    ensures
        r < bound,
{
    rand::random_range(0..bound)
}

} // verus!
