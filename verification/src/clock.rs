use vstd::prelude::*;

verus! {

/// Declares `std::time::Instant` as an opaque timestamp, so that a value of
/// it can be carried from one trusted call to the next.
#[verifier::external_type_specification]
#[verifier::external_body]
pub struct ExInstant(std::time::Instant);

/// Relies on `std::time::Instant::now`: a reading of the monotonic clock.
/// Nothing is promised of the value itself.
#[verifier::external_body]
pub(crate) fn monotonic_now() -> std::time::Instant {
    std::time::Instant::now()
}

/// Relies on `std::time::Instant::elapsed`: the non-negative time since
/// `start`, handed out as whole seconds and the leftover milliseconds.
/// std documents `Duration::subsec_millis` as always under one thousand.
#[verifier::external_body]
pub(crate) fn elapsed_parts(start: &std::time::Instant) -> (r: (u64, u32))
    ensures
        r.1 < 1000,
{
    let elapsed = start.elapsed();
    (elapsed.as_secs(), elapsed.subsec_millis())
}

} // verus!
