//! The monotonic clock, in ticks of embassy-time's 1 MHz time base.
use vstd::prelude::*;

verus! {

/// Relies on `embassy_time::Instant::now` and `Instant::as_ticks`: the current
/// tick count of the monotonic clock. Nothing is promised of its value.
#[verifier::external_body]
pub(crate) fn now_ticks() -> (r: u64) {
    embassy_time::Instant::now().as_ticks()
}

/// Relies on `embassy_time::Duration::from_micros` and `Duration::as_ticks`:
/// with the `std` feature the tick rate is 1 MHz, so one tick is one
/// microsecond and the count comes back unchanged. The conversion rounds up
/// with `micros + 1 - 1`, which overflows on the largest count.
#[verifier::external_body]
pub(crate) fn ticks_from_micros(micros: u64) -> (r: u64)
    requires
        micros < u64::MAX,
    ensures
        r == micros,
{
    embassy_time::Duration::from_micros(micros).as_ticks()
}

} // verus!
