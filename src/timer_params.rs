//! Choice of a prescaler and a reload value for a 16-bit PWM timer.
//!
//! The timer counts up to the reload value and back down, so one period of
//! its output lasts `2 * reload * prescaler` clock cycles.
use crate::fixed_point::U24F8;
use vstd::prelude::*;

verus! {

/// Prescaler and reload value for the timer.
#[derive(Clone, Copy, Debug, PartialEq, Eq, Structural)]
pub struct PreciseTimerParams {
    /// Value the counter counts up to.
    pub icr1: u16,
    /// Clock divisor.
    pub prescaler: u16,
}

/// Number of prescalers the timer offers.
pub const NB_PRESCALERS: usize = 5;

/// The prescalers, in increasing order.
pub open spec fn prescaler_spec(i: int) -> int {
    if i == 0 {
        1
    } else if i == 1 {
        8
    } else if i == 2 {
        64
    } else if i == 3 {
        256
    } else {
        1024
    }
}

/// The `i`-th prescaler.
pub fn possible_prescaler(i: usize) -> (r: u16)
    requires
        i < NB_PRESCALERS,
    ensures
        r == prescaler_spec(i as int),
{
    match i {
        0 => 1,
        1 => 8,
        2 => 64,
        3 => 256,
        _ => 1024,
    }
}

/// Reload value that gives at least the frequency `freq` (both raw Q24.8)
/// with prescaler `i`.
pub open spec fn reload_at(clock: nat, freq: nat, i: int) -> int {
    clock as int / (2 * freq * prescaler_spec(i))
}

/// Index of the first prescaler from `i` on whose reload value fits 16 bits,
/// or `NB_PRESCALERS` if there is none.
pub open spec fn first_fit(clock: nat, freq: nat, i: int) -> int
    decreases NB_PRESCALERS - i,
{
    if i >= NB_PRESCALERS {
        NB_PRESCALERS as int
    } else if reload_at(clock, freq, i) <= 0xFFFF {
        i
    } else {
        first_fit(clock, freq, i + 1)
    }
}

/// The setting chosen for a clock, a minimum frequency and a tolerance, all
/// raw Q24.8: the first prescaler whose reload value fits 16 bits, kept only
/// if the clock cycles lost to truncation stay within the tolerance; no later
/// prescaler is tried.
pub open spec fn timer_params_spec(clock: nat, freq: nat, tolerance: nat) -> Option<
    PreciseTimerParams,
> {
    let i = first_fit(clock, freq, 0);
    if i >= NB_PRESCALERS {
        None
    } else {
        let n = reload_at(clock, freq, i);
        let cycles = 2 * n * prescaler_spec(i);
        if n == 0 || clock as int % cycles > tolerance * cycles {
            None
        } else {
            Some(PreciseTimerParams { icr1: n as u16, prescaler: prescaler_spec(i) as u16 })
        }
    }
}

/// Finds the prescaler and reload value that run the timer at `min_frequency`
/// or just above, within `frequency_range`; `None` when the first prescaler
/// that fits is not precise enough, or when the clock is too slow for the
/// frequency (a reload value of zero).
pub fn compute_timer_params(clock: U24F8, min_frequency: U24F8, frequency_range: U24F8) -> (r:
    Option<PreciseTimerParams>)
    requires
        min_frequency.bits > 0,
    ensures
        r == timer_params_spec(clock.bits as nat, min_frequency.bits as nat, frequency_range.bits as nat),
{
    let clock_bits: u64 = clock.bits as u64;
    let freq_bits: u64 = min_frequency.bits as u64;
    let mut i: usize = 0;
    while i < NB_PRESCALERS
        invariant
            i <= NB_PRESCALERS,
            clock_bits == clock.bits,
            freq_bits == min_frequency.bits,
            min_frequency.bits > 0,
            first_fit(clock.bits as nat, min_frequency.bits as nat, 0) == first_fit(
                clock.bits as nat,
                min_frequency.bits as nat,
                i as int,
            ),
        decreases NB_PRESCALERS - i,
    {
        let ps: u64 = possible_prescaler(i) as u64;
        assert(2 * freq_bits * ps <= 2 * 0x1_0000_0000 * 1024) by (nonlinear_arith)
            requires
                freq_bits < 0x1_0000_0000,
                ps <= 1024,
        ;
        assert(2 * freq_bits * ps > 0) by (nonlinear_arith)
            requires
                freq_bits > 0,
                ps >= 1,
        ;
        let n: u64 = clock_bits / (2 * freq_bits * ps);
        if n > 0xFFFF {
            i = i + 1;
        } else {
            if n == 0 {
                return None;
            }
            assert(2 * n * ps <= 2 * 0xFFFF * 1024 && 2 * n * ps > 0) by (nonlinear_arith)
                requires
                    0 < n <= 0xFFFF,
                    1 <= ps <= 1024,
            ;
            let cycles: u64 = 2 * n * ps;
            let remaining_cpu_cycles: u64 = clock_bits % cycles;
            let tolerance: u64 = frequency_range.bits as u64;
            assert(tolerance * cycles <= 0x1_0000_0000 * (2 * 0xFFFF * 1024)) by (nonlinear_arith)
                requires
                    tolerance < 0x1_0000_0000,
                    cycles <= 2 * 0xFFFF * 1024,
            ;
            let limit_remaining: u64 = tolerance * cycles;
            if remaining_cpu_cycles > limit_remaining {
                return None;
            }
            return Some(PreciseTimerParams { prescaler: possible_prescaler(i), icr1: n as u16 });
        }
    }
    None
}

} // verus!
