//! The engine's one source of randomness: uniform integers for laying out
//! the navigation map.

use rand::Rng;
use vstd::prelude::*;

verus! {

/// Relies on rand's `Rng::gen_range` over a half-open range, with
/// `rand::thread_rng` as the generator: it panics only on an empty range and
/// returns a value of the range. Nothing is assumed about which value comes
/// back.
#[verifier::external_body]
pub(crate) fn rand_in_range(lo: i32, hi: i32) -> (r: i32)
    requires
        lo < hi,
    ensures
        lo <= r < hi,
{
    rand::thread_rng().gen_range(lo..hi)
}

} // verus!
