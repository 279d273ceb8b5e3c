use rand::Rng;
use vstd::prelude::*;

verus! {

/// Relies on rand::Rng::random_range over an inclusive range, drawn from the
/// thread-local generator: the value lies within the bounds, and the call
/// panics on an empty range, which `requires` leaves out.
#[verifier::external_body]
pub(crate) fn random_u64_inclusive(lo: u64, hi: u64) -> (r: u64)
    requires
        lo <= hi,
    ensures
        lo <= r <= hi,
{
    rand::rng().random_range(lo..=hi)
}

/// Relies on rand::Rng::random_range over an inclusive range, drawn from the
/// thread-local generator: the value lies within the bounds, and the call
/// panics on an empty range, which `requires` leaves out.
#[verifier::external_body]
pub(crate) fn random_i32_inclusive(lo: i32, hi: i32) -> (r: i32)
    requires
        lo <= hi,
    ensures
        lo <= r <= hi,
{
    rand::rng().random_range(lo..=hi)
}

} // verus!
