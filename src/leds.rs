//! A row of eight lights held in one byte, light `i` in bit `i`.
use vstd::prelude::*;

verus! {

/// Whether light `i` of `leds` is on.
pub open spec fn led_bit(leds: u8, i: u8) -> bool {
    (leds >> i) & 1u8 == 1u8
}

/// Whether light `i` of `leds` is on.
pub fn led_on(leds: u8, i: u8) -> (r: bool)
    requires
        i < 8,
    ensures
        r == led_bit(leds, i),
{
    (leds >> i) & 1u8 == 1u8
}

} // verus!
