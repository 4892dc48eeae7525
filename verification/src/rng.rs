//! The one randomness source of the crate: a uniform draw from an inclusive
//! integer range, delegated to the `rand` crate.

use vstd::prelude::*;

verus! {

/// Relies on `rand::Rng::gen_range` over `lo..=hi` on the thread-local
/// generator: it panics only on an empty range and returns a value inside the
/// range.  The draw depends on generator state, so nothing beyond the bounds
/// is stated.
#[verifier::external_body]
pub(crate) fn rand_in_range(lo: u32, hi: u32) -> (r: u32)
    requires
        lo <= hi,
    ensures
        lo <= r <= hi,
{
    rand::Rng::gen_range(&mut rand::thread_rng(), lo..=hi)
}

} // verus!
