//! The random source: a uniform draw of a fixed-point scalar from a
//! half-open range. Everything the renderer concludes from a draw is proved
//! for every value the range admits, so nothing depends on the distribution.

use vstd::prelude::*;

verus! {

/// Relies on rand::Rng::gen_range over a half-open integer range: the draw
/// lies in `[lo, hi)`, and the call panics only on an empty range, which the
/// precondition rules out.
#[verifier::external_body]
pub(crate) fn random_fx(lo: i64, hi: i64) -> (r: i64)
    requires
        lo < hi,
    ensures
        lo <= r < hi,
{
    rand::Rng::gen_range(&mut rand::thread_rng(), lo..hi)
}

} // verus!
