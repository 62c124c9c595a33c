//! Tick-delta arithmetic: wraparound-safe subtraction of counter readings
//! and the exact conversion of a tick delta into nanoseconds.

use vstd::arithmetic::div_mod::lemma_basic_div;
use vstd::arithmetic::div_mod::lemma_div_is_ordered;
use vstd::arithmetic::div_mod::lemma_div_is_ordered_by_denominator;
use vstd::arithmetic::div_mod::lemma_div_pos_is_pos;
use vstd::arithmetic::div_mod::lemma_mod_add_multiples_vanish;
use vstd::arithmetic::div_mod::lemma_small_mod;
use vstd::arithmetic::mul::lemma_mul_inequality;
use vstd::prelude::*;

verus! {

/// Number of nanoseconds in one second.
pub const NANOS_PER_SECOND: u64 = 1_000_000_000;

/// The tick delta from `start` to `end`, as the modular difference of two
/// 64-bit counter readings: `end - start` when the counter has not wrapped,
/// and `end + 2^64 - start` when it has (`end < start`).
pub open spec fn spec_ticks_between(start: u64, end: u64) -> int {
    if end >= start {
        end - start
    } else {
        end + 0x1_0000_0000_0000_0000 - start
    }
}

/// Nanoseconds represented by `delta` ticks at `tick_hz` ticks per second:
/// `delta * 1_000_000_000 / tick_hz`, truncating toward zero.
pub open spec fn spec_ticks_to_ns(delta: int, tick_hz: u64) -> int
    recommends
        tick_hz > 0,
{
    (delta * NANOS_PER_SECOND) / (tick_hz as int)
}

/// Nanoseconds elapsed between the counter readings `start` and `end`
/// at `tick_hz` ticks per second.
pub open spec fn spec_elapsed_ns(start: u64, end: u64, tick_hz: u64) -> int
    recommends
        tick_hz > 0,
{
    spec_ticks_to_ns(spec_ticks_between(start, end), tick_hz)
}

/// Modular (wraparound-safe) difference of two counter readings.
pub fn ticks_between(start: u64, end: u64) -> (delta: u64)
    ensures
        delta == spec_ticks_between(start, end),
{
    if end >= start {
        end - start
    } else {
        u64::MAX - start + end + 1
    }
}

/// Converts a tick delta into nanoseconds with 128-bit intermediate
/// arithmetic, so the multiplication by one billion cannot overflow.
pub fn ticks_to_ns(delta: u64, tick_hz: u64) -> (ns: u128)
    requires
        tick_hz > 0,
    ensures
        ns == spec_ticks_to_ns(delta as int, tick_hz),
{
    (delta as u128 * NANOS_PER_SECOND as u128) / (tick_hz as u128)
}

/// Nanoseconds elapsed between the counter readings `start_ticks` and
/// `current_ticks` at `tick_hz` ticks per second: the modular tick delta,
/// scaled by `1_000_000_000 / tick_hz` with truncating division.
pub fn elapsed_ns(start_ticks: u64, current_ticks: u64, tick_hz: u64) -> (ns: u128)
    requires
        tick_hz > 0,
    ensures
        ns == spec_elapsed_ns(start_ticks, current_ticks, tick_hz),
{
    let delta = ticks_between(start_ticks, current_ticks);
    ticks_to_ns(delta, tick_hz)
}

/// Law: the tick delta is exactly the modular difference `(end - start) mod 2^64`,
/// so a reading past a counter wraparound still yields the correct non-negative
/// delta, never a negative or out-of-range value.
pub proof fn lemma_ticks_between_is_modular(start: u64, end: u64)
    ensures
        spec_ticks_between(start, end) == (end - start) % 0x1_0000_0000_0000_0000,
        0 <= spec_ticks_between(start, end) < 0x1_0000_0000_0000_0000,
{
    let m: int = 0x1_0000_0000_0000_0000;
    if end >= start {
        lemma_small_mod((end - start) as nat, m as nat);
    } else {
        lemma_mod_add_multiples_vanish(end - start, m);
        lemma_small_mod((end + m - start) as nat, m as nat);
    }
}

/// Law: converting `delta` ticks at any frequency `tick_hz >= 1` is exactly
/// `delta * 1_000_000_000 / tick_hz`, and the wide-integer intermediate result
/// stays within 128 bits for every 64-bit delta.
pub proof fn lemma_ticks_to_ns_exact(delta: u64, tick_hz: u64)
    requires
        tick_hz >= 1,
    ensures
        spec_ticks_to_ns(delta as int, tick_hz) == delta * 1_000_000_000 / (tick_hz as int),
        0 <= spec_ticks_to_ns(delta as int, tick_hz) <= u64::MAX * 1_000_000_000,
        delta * 1_000_000_000 <= u64::MAX * 1_000_000_000 < u128::MAX,
{
    let product: int = delta * NANOS_PER_SECOND;
    lemma_mul_inequality(delta as int, u64::MAX as int, NANOS_PER_SECOND as int);
    lemma_div_pos_is_pos(product, tick_hz as int);
    lemma_div_is_ordered_by_denominator(product, 1, tick_hz as int);
}

/// Law: for a fixed start reading and frequency, the elapsed-nanosecond value
/// is non-decreasing as the current reading advances, as long as both readings
/// lie on the same side of a counter wraparound.
pub proof fn lemma_elapsed_ns_monotonic(start: u64, first: u64, second: u64, tick_hz: u64)
    requires
        tick_hz > 0,
        start <= first <= second || first <= second < start,
    ensures
        spec_elapsed_ns(start, first, tick_hz) <= spec_elapsed_ns(start, second, tick_hz),
{
    let d1 = spec_ticks_between(start, first);
    let d2 = spec_ticks_between(start, second);
    assert(d1 <= d2);
    lemma_mul_inequality(d1, d2, NANOS_PER_SECOND as int);
    lemma_div_is_ordered(d1 * NANOS_PER_SECOND, d2 * NANOS_PER_SECOND, tick_hz as int);
}

/// Law: a tick source stuck at zero yields zero elapsed nanoseconds for every
/// positive frequency, whatever calibration produced.
pub proof fn lemma_zero_tick_source_yields_zero(tick_hz: u64)
    requires
        tick_hz > 0,
    ensures
        spec_elapsed_ns(0, 0, tick_hz) == 0,
{
    assert(spec_ticks_between(0, 0) == 0);
    assert(0 * NANOS_PER_SECOND == 0);
    lemma_basic_div(0, tick_hz as int);
}

} // verus!
