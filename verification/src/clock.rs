//! The clock readings the library is built on: one trusted call into the
//! operating system's clock, and the tick source and coarse timestamp
//! derived from it.
//!
//! The portable tick source used here is the system clock itself, read in
//! nanoseconds and truncated to 64 bits, so its tick frequency is close to
//! one billion ticks per second; calibration measures it rather than
//! assuming it. Reading a CPU cycle register instead is an unverifiable
//! hardware access and is left to embedding programs, which can feed their
//! own readings through [`crate::ticks::elapsed_ns`] and
//! [`crate::calibration::compute_tick_hz`].

use vstd::prelude::*;

verus! {

/// Relies on `std::time::SystemTime::now` and `SystemTime::duration_since`:
/// the current time as nanoseconds since the Unix epoch. A system clock set
/// before the epoch has no meaningful reading and is a fatal condition here.
/// Nothing can be promised of the value: it depends on the moment of the call.
#[verifier::external_body]
pub(crate) fn clock_now_ns() -> (now: u128) {
    std::time::SystemTime::now()
        .duration_since(std::time::UNIX_EPOCH)
        .expect("system clock is set before the Unix epoch")
        .as_nanos()
}

/// The current wall-clock time in nanoseconds since the Unix epoch,
/// truncated to 64 bits.
pub fn current_timestamp() -> u64 {
    #[verifier::truncate]
    (clock_now_ns() as u64)
}

/// Reads the tick source: a 64-bit counter that normally advances while the
/// process runs and whose differences, scaled by the calibrated frequency,
/// measure elapsed time. Wraparound of the 64-bit value is tolerated by the
/// modular subtraction in [`crate::ticks::ticks_between`].
pub(crate) fn read_ticks() -> u64 {
    #[verifier::truncate]
    (clock_now_ns() as u64)
}

} // verus!
