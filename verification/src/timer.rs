//! The timer handle: a snapshot of the tick source together with the
//! calibrated frequency, converting tick deltas into nanoseconds on demand.

use vstd::prelude::*;

use crate::calibration::global_tick_hz;
use crate::clock::read_ticks;
use crate::ticks::elapsed_ns;
use crate::ticks::spec_elapsed_ns;

verus! {

/// A started high-resolution timer: the tick-source reading taken at the
/// start, and the ticks-per-second frequency used to convert later deltas.
/// The handle is immutable after construction and owns no resource.
#[derive(Debug)]
pub struct HighResolutionTimer {
    start_cycles: u64,
    tick_hz: u64,
}

impl HighResolutionTimer {
    /// The tick-source reading snapshotted when the timer was started.
    pub closed spec fn start_ticks(self) -> u64 {
        self.start_cycles
    }

    /// The ticks-per-second frequency the timer converts with.
    pub closed spec fn tick_frequency(self) -> u64 {
        self.tick_hz
    }

    /// Well-formed: the frequency is non-zero, so converting a delta never
    /// divides by zero.
    pub open spec fn wf(self) -> bool {
        self.tick_frequency() > 0
    }

    /// Starts a timer: calibrates the tick frequency first, then snapshots
    /// the tick source, so the calibration cost never pollutes the measured
    /// interval.
    pub fn start() -> (timer: Self)
        ensures
            timer.wf(),
    {
        let tick_hz = global_tick_hz();
        let start_cycles = read_ticks();
        HighResolutionTimer { start_cycles, tick_hz }
    }

    /// Starts a timer with an externally supplied, already calibrated
    /// frequency, snapshotting the tick source immediately.
    pub fn start_with_frequency(tick_hz: u64) -> (timer: Self)
        requires
            tick_hz > 0,
        ensures
            timer.wf(),
            timer.tick_frequency() == tick_hz,
    {
        let start_cycles = read_ticks();
        HighResolutionTimer { start_cycles, tick_hz }
    }

    /// Nanoseconds elapsed since the timer was started: re-reads the tick
    /// source and converts the modular tick delta at the timer's frequency.
    /// Whatever reading the tick source hands back, the result is exactly
    /// that reading's delta from the start snapshot, scaled by
    /// `1_000_000_000 / frequency` with truncating division.
    pub fn ns(&self) -> (elapsed: u128)
        requires
            self.wf(),
        ensures
            exists|current: u64|
                elapsed == spec_elapsed_ns(self.start_ticks(), current, self.tick_frequency()),
    {
        let current = read_ticks();
        let elapsed = elapsed_ns(self.start_cycles, current, self.tick_hz);
        proof {
            assert(elapsed == spec_elapsed_ns(self.start_ticks(), current, self.tick_frequency()));
        }
        elapsed
    }
}

} // verus!
