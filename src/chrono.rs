//! A source of milliseconds elapsed since the last reset.
use vstd::prelude::*;

verus! {

/// Monotonic millisecond counter, wrapping at 2^32.
pub trait Chrono {
    /// Milliseconds since the last call to `reset`.
    fn millis(&self) -> u32;

    /// Sets the counter back to zero.
    fn reset(&self);
}

/// `a + b` on the millisecond clock, which wraps at 2^32.
pub open spec fn ms_add(a: u32, b: u32) -> u32 {
    ((a + b) % 0x1_0000_0000) as u32
}

/// `a - b` on the millisecond clock, which wraps at 2^32.
pub open spec fn ms_sub(a: u32, b: u32) -> u32 {
    ((a - b) % 0x1_0000_0000) as u32
}

} // verus!
