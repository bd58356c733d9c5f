//! The randomness capability behind the shake channels.
//!
//! Each shake configuration owns one independent source per output
//! channel.  A source maps an elapsed-time value to a fixed-point number
//! between minus one and one; channels backed by different instances may
//! return uncorrelated values even for the same time.

use crate::fixed::FX_ONE;
use std::io::Write;
use vstd::prelude::*;

verus! {

/// A source of randomness for shaking the camera.
pub trait RandomSource: Send + Sync {
    /// Produces a value between minus one and one, in fixed-point units,
    /// for the given elapsed time in fixed-point seconds.
    fn rand(&self, time: i64) -> (r: i64)
        ensures
            -FX_ONE <= r <= FX_ONE,
    ;
}

/// Writes the warning about a missing random source to standard error.
/// Relies on `std::io::Stderr::write_fmt`, reached through the `writeln`
/// macro; nothing is claimed about the write.
#[verifier::external_body]
fn warn_not_random() {
    let _ = writeln!(
        std::io::stderr(),
        "You need to set a random source for the shaking to work properly!",
    );
}

/// A not-random `RandomSource`.  Always returns 0.5, and warns that no
/// real source was configured: the shake keeps running with degraded,
/// non-randomized motion rather than halting.
pub struct NotRandom;

impl RandomSource for NotRandom {
    fn rand(&self, _time: i64) -> (r: i64)
        ensures
            r == FX_ONE / 2,
    {
        warn_not_random();
        FX_ONE / 2
    }
}

/// The value `v` clamped to the unit interval around zero.
pub open spec fn clamp_unit_s(v: int) -> int {
    if v > FX_ONE as int {
        FX_ONE as int
    } else if v < -(FX_ONE as int) {
        -(FX_ONE as int)
    } else {
        v
    }
}

/// A `RandomSource` that always returns the same value, clamped to the
/// valid range.  With such sources the shake holds one fixed pose per
/// trauma level instead of jittering.
pub struct ConstantSource {
    /// The value handed back on every call, before clamping.
    pub value: i64,
}

impl RandomSource for ConstantSource {
    fn rand(&self, _time: i64) -> (r: i64)
        ensures
            r == clamp_unit_s(self.value as int),
    {
        if self.value > FX_ONE {
            FX_ONE
        } else if self.value < -FX_ONE {
            -FX_ONE
        } else {
            self.value
        }
    }
}

} // verus!
