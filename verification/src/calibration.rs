//! Frequency calibration: measuring how many ticks the tick source produces
//! per second by comparing it against the system clock over a fixed window,
//! with a guarded division that falls back to a conservative constant when
//! the measurement is degenerate.

use vstd::arithmetic::mul::lemma_mul_inequality;
use vstd::prelude::*;

use crate::clock::clock_now_ns;
use crate::clock::read_ticks;
use crate::ticks::ticks_between;
use crate::ticks::NANOS_PER_SECOND;

verus! {

/// Conservative ticks-per-second constant (2.5 GHz) used when no sound
/// empirical measurement is available.
pub const FALLBACK_TICK_HZ: u64 = 2_500_000_000;

/// Length of the calibration busy-wait window, in nanoseconds (10 ms): long
/// enough that clock-read overhead contributes only a small relative error,
/// short enough to keep startup cheap.
pub const CALIBRATION_WINDOW_NS: u64 = 10_000_000;

/// Upper bound on clock polls during the calibration busy-wait, so that a
/// stalled clock ends the wait (and the zero-window fallback applies)
/// instead of hanging the process.
pub const CALIBRATION_SPIN_CAP: u64 = 100_000_000;

/// The frequency a calibration measurement yields: `tick_delta` ticks
/// observed over `ns_elapsed` nanoseconds give
/// `tick_delta * 1_000_000_000 / ns_elapsed` ticks per second, except that a
/// zero window (the division-by-zero hazard) and a quotient of zero or
/// beyond 64 bits (either of which would break the non-zero frequency
/// invariant) all yield [`FALLBACK_TICK_HZ`].
pub open spec fn spec_compute_tick_hz(tick_delta: u64, ns_elapsed: u128) -> int {
    if ns_elapsed == 0 {
        FALLBACK_TICK_HZ as int
    } else {
        let measured = (tick_delta * NANOS_PER_SECOND) / (ns_elapsed as int);
        if 0 < measured <= u64::MAX {
            measured
        } else {
            FALLBACK_TICK_HZ as int
        }
    }
}

/// Turns one calibration measurement into a tick frequency, using 128-bit
/// intermediate arithmetic, and guarding the zero-window and out-of-range
/// cases with [`FALLBACK_TICK_HZ`] so the result is always a valid non-zero
/// frequency.
pub fn compute_tick_hz(tick_delta: u64, ns_elapsed: u128) -> (tick_hz: u64)
    ensures
        tick_hz == spec_compute_tick_hz(tick_delta, ns_elapsed),
        tick_hz > 0,
{
    if ns_elapsed == 0 {
        FALLBACK_TICK_HZ
    } else {
        proof {
            lemma_mul_inequality(tick_delta as int, u64::MAX as int, NANOS_PER_SECOND as int);
        }
        let measured: u128 = (tick_delta as u128 * NANOS_PER_SECOND as u128) / ns_elapsed;
        if measured == 0 || measured > u64::MAX as u128 {
            FALLBACK_TICK_HZ
        } else {
            measured as u64
        }
    }
}

/// Law: a zero-length measurement window always yields the fallback
/// frequency, whatever the tick delta — the division by zero is never taken.
pub proof fn lemma_zero_window_falls_back(tick_delta: u64)
    ensures
        spec_compute_tick_hz(tick_delta, 0) == FALLBACK_TICK_HZ,
{
}

/// Busy-waits until the system clock has advanced by `target_ns`
/// nanoseconds, polling it in a tight loop. The poll count is capped so a
/// clock that stalls or jumps backward ends the wait instead of hanging.
fn spin_wait_ns(target_ns: u64) {
    let wait_start: u128 = clock_now_ns();
    let mut polls: u64 = 0;
    let mut done: bool = false;
    while !done && polls < CALIBRATION_SPIN_CAP
        invariant
            polls <= CALIBRATION_SPIN_CAP,
        decreases CALIBRATION_SPIN_CAP - polls,
    {
        let now: u128 = clock_now_ns();
        if now >= wait_start && now - wait_start >= target_ns as u128 {
            done = true;
        }
        polls = polls + 1;
    }
}

/// Measures the tick source against the system clock: reads both, busy-waits
/// for the calibration window, reads both again, and converts the two deltas
/// into a frequency with [`compute_tick_hz`]. The result is always a valid
/// non-zero frequency; what value the measurement produced depends on the
/// clock and is pinned down, for every possible reading, by
/// [`compute_tick_hz`]'s contract.
pub fn calibrate_tick_hz() -> (tick_hz: u64)
    ensures
        tick_hz > 0,
{
    let ns_start = clock_now_ns();
    let tick_start = read_ticks();
    spin_wait_ns(CALIBRATION_WINDOW_NS);
    let ns_end = clock_now_ns();
    let tick_end = read_ticks();
    let tick_delta = ticks_between(tick_start, tick_end);
    let ns_elapsed: u128 = if ns_end >= ns_start {
        ns_end - ns_start
    } else {
        0
    };
    compute_tick_hz(tick_delta, ns_elapsed)
}

/// The tick frequency every timer converts with. Each call runs a fresh
/// calibration; a process-wide cache would need a static initializer, which
/// this library does not hold, so callers keep the result — a started timer
/// stores it for its lifetime.
pub fn global_tick_hz() -> (tick_hz: u64)
    ensures
        tick_hz > 0,
{
    calibrate_tick_hz()
}

} // verus!
