//! Busy-wait calibration: cycles per time unit for the configured clock.
//!
//! The transmitter's pulse widths come from instruction-count delays, so the
//! one thing that ties nanoseconds to loop iterations is the clock frequency.
//! Keeping that conversion in a single place makes a miscalibration easy to
//! locate: nothing else in the crate knows the clock speed.

use vstd::prelude::*;

verus! {

/// The configured CPU clock, in hertz.
pub const CLOCK_HZ: u64 = 20_000_000;

/// Nanoseconds in one second, for the cycle conversion.
pub const NANOS_PER_SECOND: u64 = 1_000_000_000;

/// How many CPU cycles a busy-wait must burn to last `ns` nanoseconds,
/// rounded down.
pub fn cycles_for_ns(ns: u32) -> (cycles: u64)
    ensures
        cycles == (ns as int * CLOCK_HZ as int) / (NANOS_PER_SECOND as int),
{
    (ns as u64) * CLOCK_HZ / NANOS_PER_SECOND
}

} // verus!
