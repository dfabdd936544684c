//! The millisecond counter advanced by the timer interrupt.
//!
//! The timer divides the 16 MHz clock by `PRESCALER` and interrupts every
//! `TIMER_COUNTS` counts; each interrupt adds the milliseconds elapsed.
use crate::chrono::ms_add;
use vstd::prelude::*;

verus! {

/// Clock divisor of the timer.
pub const PRESCALER: u32 = 1024;

/// Counts between two interrupts.
pub const TIMER_COUNTS: u32 = 125;

/// Milliseconds between two interrupts.
pub const MILLIS_INCREMENT: u32 = PRESCALER * TIMER_COUNTS / 16000;

/// The counter after one interrupt; it wraps at 2^32.
pub fn next_millis(counter: u32) -> (r: u32)
    ensures
        r == ms_add(counter, MILLIS_INCREMENT),
{
    counter.wrapping_add(MILLIS_INCREMENT)
}

} // verus!
