use vstd::prelude::*;

verus! {

/// Relies on rand::Rng::gen_range on an `i64` range: it panics on an empty
/// range and otherwise returns a value that is at least the lower bound and
/// strictly below the upper one.
#[verifier::external_body]
pub(crate) fn gen_range_i64(lo: i64, hi: i64) -> (r: i64)
    requires
        lo < hi,
    ensures
        lo <= r < hi,
{
    rand::Rng::gen_range(&mut rand::thread_rng(), lo..hi)
}

} // verus!
