//! The simulation's only sources of chance, each a thin trusted wrapper
//! around `rand`. Nothing is assumed of an outcome beyond its range, so every
//! caller is verified for every value the generator may hand back.

use vstd::prelude::*;
use rand::Rng;

verus! {

/// Relies on rand::Rng::gen_range over `lo..hi`: returns a value of the
/// half-open range, and panics only when the range is empty.
#[verifier::external_body]
pub(crate) fn sample_range(lo: i64, hi: i64) -> (r: i64)
    requires
        lo < hi,
    ensures
        lo <= r < hi,
{
    let mut rng = rand::thread_rng();
    rng.gen_range(lo..hi)
}

/// Relies on rand::Rng::gen_ratio: true with probability `num / den`, and
/// panics only when `den == 0` or `num > den`. Nothing is promised of the
/// outcome.
#[verifier::external_body]
pub(crate) fn chance(num: u32, den: u32) -> bool
    requires
        0 < den,
        num <= den,
{
    let mut rng = rand::thread_rng();
    rng.gen_ratio(num, den)
}

} // verus!
