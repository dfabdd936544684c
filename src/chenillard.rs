//! Chaser: one light at a time runs along a row of eight, once per period.
use crate::leds::led_bit;
use vstd::bits::{lemma_u8_pow2_no_overflow, lemma_u8_shl_is_mul};
use vstd::arithmetic::power2::pow2;
use vstd::prelude::*;

verus! {

/// What the loop reads in one iteration.
#[derive(Clone, Copy, Debug, PartialEq, Eq, Structural)]
pub struct Inputs {
    pub ms: u32,
}

/// What the loop drives in one iteration.
#[derive(Clone, Copy, Debug, PartialEq, Eq, Structural)]
pub struct Outputs {
    /// Bit `i` is the state of light `i`.
    pub leds: u8,
}

/// Fixed configuration of the chaser.
pub struct Parameters {
    /// Time for the light to run along the whole row.
    pub period_ms: u32,
}

/// Number of lights.
pub const NB_LEDS: u32 = 8;

/// Index of the light that is on at time `ms`: `8 * (ms mod period) / period`.
pub open spec fn lit_index(p: Parameters, ms: u32) -> nat {
    (NB_LEDS * (ms % p.period_ms) / p.period_ms as int) as nat
}

/// The lights at the time read.
pub fn advance(p: &Parameters, inputs: Inputs) -> (r: Outputs)
    requires
        p.period_ms > 0,
    ensures
        lit_index(*p, inputs.ms) < 8,
        r.leds == pow2(lit_index(*p, inputs.ms)),
{
    let period: u64 = p.period_ms as u64;
    let phase: u64 = (inputs.ms as u64) % period;
    assert(NB_LEDS * phase / (period as int) < 8) by (nonlinear_arith)
        requires
            phase < period,
            period > 0,
    ;
    let led_idx: u8 = (NB_LEDS as u64 * phase / period) as u8;
    proof {
        lemma_u8_pow2_no_overflow(led_idx as nat);
        lemma_u8_shl_is_mul(1, led_idx);
    }
    Outputs { leds: 1u8 << led_idx }
}

/// Exactly one light is on: light `j` is on if and only if it is the lit
/// index, for every time.
pub proof fn lemma_exactly_one_lit(p: Parameters, ms: u32, j: u8)
    requires
        p.period_ms > 0,
        j < 8,
    ensures
        led_bit(pow2(lit_index(p, ms)) as u8, j) <==> j == lit_index(p, ms),
{
    let phase = ms % p.period_ms;
    assert(NB_LEDS * phase / (p.period_ms as int) < 8) by (nonlinear_arith)
        requires
            0 <= phase < p.period_ms,
            p.period_ms > 0,
    ;
    let i: u8 = lit_index(p, ms) as u8;
    lemma_u8_pow2_no_overflow(i as nat);
    lemma_u8_shl_is_mul(1, i);
    assert(((1u8 << i) >> j) & 1u8 == 1u8 <==> j == i) by (bit_vector)
        requires
            i < 8,
            j < 8,
    ;
}

} // verus!
