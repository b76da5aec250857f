use vstd::prelude::*;

verus! {

/// Nanoseconds in one second.
pub const NANOS_PER_SECOND: u64 = 1_000_000_000;

/// Length in nanoseconds of one period of a `hz` hertz clock, rounded down.
/// A zero frequency has an unbounded period, which saturates to `u64::MAX`.
pub open spec fn nanosec_period(hz: u16) -> u64 {
    if hz == 0 {
        u64::MAX
    } else {
        (NANOS_PER_SECOND / (hz as u64)) as u64
    }
}

/// Converts a tick rate in hertz into the tick period in nanoseconds.
pub fn hz_to_nanosec_period(hz: u16) -> (period: u64)
    ensures
        period == nanosec_period(hz),
        hz > 0 ==> period * hz <= 1_000_000_000 < (period + 1) * hz,
        hz == 0 ==> period == u64::MAX,
{
    if hz == 0 {
        u64::MAX
    } else {
        let h: u64 = hz as u64;
        let q: u64 = NANOS_PER_SECOND / h;
        assert(q * h <= NANOS_PER_SECOND < (q + 1) * h) by (nonlinear_arith)
            requires
                q == NANOS_PER_SECOND / h,
                h > 0,
        ;
        q
    }
}

} // verus!
