//! Deterministic control-loop cores for a small microcontroller board.
//!
//! Every exercise is a pure transition `advance(parameters, state, inputs)`
//! over fixed-point values; reading pins and driving outputs is left to the
//! caller.
use vstd::prelude::*;

pub mod chenillard;
pub mod chrono;
pub mod cowboy;
pub mod debounce;
pub mod dice;
pub mod fixed_point;
pub mod leds;
pub mod low_pass;
pub mod millis;
pub mod pwm;
pub mod timer_params;
pub mod telemetry;
pub mod vumetre;
pub mod wiper;

verus! {

/// Sum of two sizes.
pub fn add(left: usize, right: usize) -> (r: usize)
    requires
        left + right <= usize::MAX,
    ensures
        r == left + right,
{
    left + right
}

} // verus!
