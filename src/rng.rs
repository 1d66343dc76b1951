use vstd::prelude::*;

verus! {

/// Relies on `rand::random_range` over `lo..hi`: a value of the thread-local
/// generator inside that half-open range. The range must not be empty, or the
/// call panics.
#[verifier::external_body]
pub(crate) fn random_in(lo: u16, hi: u16) -> (r: u16)
    requires
        lo < hi,
    ensures
        lo <= r < hi,
{
    rand::random_range(lo..hi)
}

} // verus!
