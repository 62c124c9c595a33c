//! A sub-microsecond elapsed-time measurement primitive.
//!
//! A [`timer::HighResolutionTimer`] snapshots a monotonically advancing
//! 64-bit tick counter when it is started and, on demand, converts the
//! tick delta since then into wall-clock nanoseconds using a calibrated
//! ticks-per-second frequency. Tick deltas are taken with modular
//! (wraparound-safe) subtraction, and the conversion uses 128-bit
//! intermediate arithmetic so that no overflow is possible for any delta
//! and any non-zero frequency.

pub mod calibration;
pub mod clock;
pub mod ticks;
pub mod timer;
