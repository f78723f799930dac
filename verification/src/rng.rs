//! The one call into the random-number generator that the spawner
//! logic makes: drawing a re-arm delay from a bounded range.

use vstd::prelude::*;
use rand::Rng;

verus! {

/// Relies on rand::Rng::gen_range over the thread-local generator that
/// rand::thread_rng hands out: for a non-empty half-open range
/// `lo..hi` it returns a value in `[lo, hi)`, and it panics only when
/// the range is empty, which the precondition rules out. Nothing more
/// is claimed of the draw: it is random, so every outcome in the range
/// must be acceptable to callers.
#[verifier::external_body]
pub(crate) fn sample_range_u64(lo: u64, hi: u64) -> (r: u64)
    requires
        lo < hi,
    ensures
        lo <= r < hi,
{
    rand::thread_rng().gen_range(lo..hi)
}

} // verus!
