use hires_timer::calibration::calibrate_tick_hz;
use hires_timer::calibration::compute_tick_hz;
use hires_timer::calibration::global_tick_hz;
use hires_timer::calibration::FALLBACK_TICK_HZ;
use hires_timer::clock::current_timestamp;
use hires_timer::ticks::elapsed_ns;
use hires_timer::ticks::ticks_between;
use hires_timer::ticks::ticks_to_ns;
use hires_timer::timer::HighResolutionTimer;

#[test]
fn conversion_is_exact_wide_integer_arithmetic() {
    // delta * 1_000_000_000 / frequency, truncating toward zero
    assert_eq!(ticks_to_ns(4000, 4_000_000_000), 1000);
    assert_eq!(ticks_to_ns(1, 3), 333_333_333);
    assert_eq!(ticks_to_ns(0, 1), 0);
    // frequency of 1 Hz with the largest delta: no overflow in 128 bits
    assert_eq!(
        ticks_to_ns(u64::MAX, 1),
        u64::MAX as u128 * 1_000_000_000u128
    );
    assert_eq!(ticks_to_ns(u64::MAX, u64::MAX), 1_000_000_000);
}

#[test]
fn elapsed_four_thousand_ticks_at_four_gigahertz_is_one_microsecond() {
    assert_eq!(elapsed_ns(1000, 5000, 4_000_000_000), 1000);
}

#[test]
fn elapsed_is_monotonic_in_the_current_reading() {
    let hz = 2_400_000_000u64;
    let a = elapsed_ns(100, 200, hz);
    let b = elapsed_ns(100, 300, hz);
    assert!(a <= b);
    let c = elapsed_ns(100, 100, hz);
    assert_eq!(c, 0);
    assert!(c <= a);
}

#[test]
fn wraparound_subtraction_yields_positive_delta() {
    // start two to the sixty-fourth minus ten, end five: delta is fifteen
    assert_eq!(ticks_between(u64::MAX - 9, 5), 15);
    assert_eq!(elapsed_ns(u64::MAX - 9, 5, 1_000_000_000), 15);
    // the largest possible wrapped delta
    assert_eq!(ticks_between(5, 4), u64::MAX);
    assert_eq!(ticks_between(7, 7), 0);
}

#[test]
fn calibration_measurement_is_exact_on_exact_inputs() {
    // a 10 ms window over which the tick source advanced as 2.4 GHz would
    assert_eq!(compute_tick_hz(24_000_000, 10_000_000), 2_400_000_000);
    assert_eq!(compute_tick_hz(10_000_000, 10_000_000), 1_000_000_000);
}

#[test]
fn zero_window_yields_fallback_not_a_division_fault() {
    assert_eq!(compute_tick_hz(0, 0), FALLBACK_TICK_HZ);
    assert_eq!(compute_tick_hz(24_000_000, 0), FALLBACK_TICK_HZ);
    assert_eq!(compute_tick_hz(u64::MAX, 0), FALLBACK_TICK_HZ);
}

#[test]
fn degenerate_measurements_yield_fallback() {
    // quotient rounds to zero: one tick over two seconds
    assert_eq!(compute_tick_hz(1, 2_000_000_000), FALLBACK_TICK_HZ);
    // quotient beyond 64 bits: the largest delta over one nanosecond
    assert_eq!(compute_tick_hz(u64::MAX, 1), FALLBACK_TICK_HZ);
}

#[test]
fn zero_tick_source_yields_zero_elapsed_for_any_frequency() {
    for hz in [1u64, 24_000_000, 1_000_000_000, FALLBACK_TICK_HZ, u64::MAX] {
        assert_eq!(elapsed_ns(0, 0, hz), 0);
    }
}

#[test]
fn calibrated_frequency_is_positive() {
    let hz = calibrate_tick_hz();
    assert!(hz > 0);
    // the portable tick source is the nanosecond clock itself, so the
    // measured frequency sits near one billion ticks per second
    assert!(hz > 500_000_000 && hz < 2_000_000_000);
    assert!(global_tick_hz() > 0);
}

#[test]
fn started_timer_reports_nondecreasing_elapsed() {
    let timer = HighResolutionTimer::start_with_frequency(1_000_000_000);
    let first = timer.ns();
    let second = timer.ns();
    assert!(first <= second);
}

#[test]
fn start_calibrates_and_measures() {
    let timer = HighResolutionTimer::start();
    let elapsed = timer.ns();
    // well under an hour of apparent elapsed time
    assert!(elapsed < 3_600_000_000_000);
}

#[test]
fn current_timestamp_is_past_the_epoch() {
    let first = current_timestamp();
    let second = current_timestamp();
    // nanoseconds since the Unix epoch, read after the year 2000
    assert!(first > 946_684_800_000_000_000);
    assert!(second >= first);
}
