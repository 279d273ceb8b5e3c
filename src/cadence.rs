//! The time a runner waits between two actions: a base interval plus, when
//! enabled, a random extra delay drawn from an inclusive range.
use crate::random::random_u64_inclusive;
use vstd::prelude::*;

verus! {

/// Upper end of the extra-delay range that is actually drawn from. A range
/// whose maximum lies below its minimum (a transient state while the
/// bounds are being edited) collapses to the minimum.
pub open spec fn effective_max_ms(min_ms: u64, max_ms: u64) -> u64 {
    if max_ms < min_ms {
        min_ms
    } else {
        max_ms
    }
}

/// An extra delay that a draw over `[min_ms, max_ms]` may yield.
pub open spec fn extra_in_range(min_ms: u64, max_ms: u64, extra_ms: u64) -> bool {
    min_ms <= extra_ms <= effective_max_ms(min_ms, max_ms)
}

/// A value in milliseconds, held at the largest `u64` where it would not fit.
pub open spec fn capped_ms(x: int) -> u64 {
    if x > u64::MAX {
        u64::MAX
    } else {
        x as u64
    }
}

/// The wait after an action, given the extra delay that was drawn.
pub open spec fn delay_ms(interval_ms: u64, random_delay_enabled: bool, extra_ms: u64) -> u64 {
    if random_delay_enabled {
        capped_ms(interval_ms + extra_ms)
    } else {
        interval_ms
    }
}

/// The waits that a cadence can produce: the interval alone when random
/// delay is off, else the interval plus some extra delay within the range.
pub open spec fn delay_possible(
    interval_ms: u64,
    random_delay_enabled: bool,
    min_ms: u64,
    max_ms: u64,
    d: u64,
) -> bool {
    if random_delay_enabled {
        exists|e: u64| extra_in_range(min_ms, max_ms, e) && d == delay_ms(interval_ms, true, e)
    } else {
        d == interval_ms
    }
}

/// Computes the wait after an action from the base interval and the extra
/// delay that was drawn; the sum saturates at the largest `u64`.
pub fn total_delay_ms(interval_ms: u64, random_delay_enabled: bool, extra_ms: u64) -> (r: u64)
    ensures
        r == delay_ms(interval_ms, random_delay_enabled, extra_ms),
{
    if random_delay_enabled {
        interval_ms.saturating_add(extra_ms)
    } else {
        interval_ms
    }
}

/// Draws an extra delay uniformly from `[min_ms, max_ms]`; an inverted
/// range is treated as the single value `min_ms`.
pub fn draw_extra_delay_ms(min_ms: u64, max_ms: u64) -> (r: u64)
    ensures
        extra_in_range(min_ms, max_ms, r),
        max_ms <= min_ms ==> r == min_ms,
{
    let hi = if max_ms < min_ms {
        min_ms
    } else {
        max_ms
    };
    random_u64_inclusive(min_ms, hi)
}

/// Draws the wait after one action. The extra delay is drawn only when
/// random delay is enabled.
pub fn next_delay_ms(interval_ms: u64, random_delay_enabled: bool, min_ms: u64, max_ms: u64) -> (r: u64)
    ensures
        delay_possible(interval_ms, random_delay_enabled, min_ms, max_ms, r),
        !random_delay_enabled ==> r == interval_ms,
{
    if random_delay_enabled {
        let extra = draw_extra_delay_ms(min_ms, max_ms);
        let d = total_delay_ms(interval_ms, true, extra);
        assert(extra_in_range(min_ms, max_ms, extra) && d == delay_ms(interval_ms, true, extra));
        d
    } else {
        interval_ms
    }
}

/// A drawn wait never falls short of the interval plus the range's minimum,
/// and never exceeds the interval plus the range's (effective) maximum.
pub proof fn lemma_delay_within_bounds(
    interval_ms: u64,
    min_ms: u64,
    max_ms: u64,
    d: u64,
)
    requires
        delay_possible(interval_ms, true, min_ms, max_ms, d),
    ensures
        capped_ms(interval_ms + min_ms) <= d <= capped_ms(interval_ms + effective_max_ms(min_ms, max_ms)),
        interval_ms <= d,
{
    let e = choose|e: u64| extra_in_range(min_ms, max_ms, e) && d == delay_ms(interval_ms, true, e);
    assert(min_ms <= e <= effective_max_ms(min_ms, max_ms));
}

/// With random delay over `[lo, hi]` enabled and no saturation, every
/// drawn wait lies within `[interval_ms + lo, interval_ms + hi]`.
pub proof fn lemma_delay_in_interval_plus_range(interval_ms: u64, lo: u64, hi: u64, d: u64)
    requires
        lo <= hi,
        interval_ms + hi <= u64::MAX,
        delay_possible(interval_ms, true, lo, hi, d),
    ensures
        interval_ms + lo <= d <= interval_ms + hi,
{
    lemma_delay_within_bounds(interval_ms, lo, hi, d);
}

/// With random delay over the single value `[v, v]` enabled, every drawn wait
/// is exactly the interval plus `v`, where that sum fits in a `u64`.
pub proof fn lemma_fixed_extra_delay(interval_ms: u64, v: u64, d: u64)
    requires
        interval_ms + v <= u64::MAX,
        delay_possible(interval_ms, true, v, v, d),
    ensures
        d == interval_ms + v,
{
    lemma_delay_within_bounds(interval_ms, v, v, d);
}

} // verus!
