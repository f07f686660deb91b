//! Randomness for the spawners: which side the saucer enters from, the
//! extra delay before the next bomb, the bomb's sprite kind, and which
//! enemy drops it. All draws go through one bounded-range wrapper.

use vstd::prelude::*;

verus! {

/// Relies on rand's `Rng::gen_range` over the `u64` range `lo..hi`, with the
/// generator from `rand::thread_rng`: it panics only on an empty range and
/// otherwise returns a value within the range. Nothing more is assumed of
/// the value; every caller must be correct for any outcome in the range.
#[verifier::external_body]
pub(crate) fn rand_range(lo: u64, hi: u64) -> (r: u64)
    requires
        lo < hi,
    ensures
        lo <= r < hi,
{
    rand::Rng::gen_range(&mut rand::thread_rng(), lo..hi)
}

} // verus!
