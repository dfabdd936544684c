//! Level meter: an analog level lights a bar of up to eight lights.
use crate::fixed_point::U1F15;
use vstd::arithmetic::power2::pow2;
use vstd::bits::{lemma_u8_pow2_no_overflow, lemma_u8_shl_is_mul};
use crate::telemetry::{decimal, push_decimal, push_str};
use vstd::prelude::*;
use vstd::string::StringSliceAdditionalSpecFns;

verus! {

/// What the loop reads in one iteration.
#[derive(Clone, Copy, Debug, PartialEq, Eq, Structural)]
pub struct Inputs {
    /// The new level in [0, 2), or `None` when the conversion is not done yet.
    pub level: Option<U1F15>,
}

/// What the loop drives in one iteration.
#[derive(Clone, Copy, Debug, PartialEq, Eq, Structural)]
pub struct Outputs {
    /// The level used, for the diagnostic line.
    pub adc_value: U1F15,
    /// Number of lights that are on.
    pub nb_lebs: u8,
    /// Bit `i` is the state of light `i`: the lowest `nb_lebs` bits are set.
    pub leds: u8,
}

/// The last level read, kept for the iterations where none is ready.
#[derive(Clone, Copy, Debug, PartialEq, Eq, Structural)]
pub struct State {
    pub current_level: U1F15,
}

/// Raw Q4.12 value of the number of lights plus one.
pub const NINE_BITS: u32 = 0x9000;

/// Largest reading of the 10-bit converter.
pub const ADC_MAX: u16 = 1023;

/// Level in [0, 1] of a converter reading: `raw / 1023`, truncated to Q1.15.
pub fn level_from_adc(raw: u16) -> (r: U1F15)
    requires
        raw <= ADC_MAX,
    ensures
        r.bits == raw * 0x8000 / (ADC_MAX as int),
        r.bits <= 0x8000,
{
    let wide: u32 = raw as u32 * 0x8000;
    assert(wide / (ADC_MAX as u32) <= 0x8000) by (nonlinear_arith)
        requires
            wide == raw * 0x8000,
            raw <= 1023,
    ;
    U1F15::from_bits((wide / ADC_MAX as u32) as u16)
}

/// Number of lights for a raw Q1.15 level: `level * 9`, truncated.
pub open spec fn bar_count(level: u16) -> nat {
    (level * NINE_BITS / 0x800_0000) as nat
}

/// Byte with the lowest `n` bits set, all of them from eight on.
pub open spec fn bar_pattern(n: nat) -> u8 {
    if n >= 8 {
        0xFF
    } else {
        (pow2(n) - 1) as u8
    }
}

/// The result of one step.
pub open spec fn advance_spec(s: State, inputs: Inputs) -> (State, Outputs) {
    let current = match inputs.level {
        Some(level) => level,
        None => s.current_level,
    };
    let n = bar_count(current.bits);
    (
        State { current_level: current },
        Outputs { adc_value: current, nb_lebs: n as u8, leds: bar_pattern(n) },
    )
}

/// One step of the meter: a new level when there is one, the previous one
/// otherwise.
pub fn advance(s: State, inputs: Inputs) -> (r: (State, Outputs))
    ensures
        r == advance_spec(s, inputs),
        r.1.nb_lebs <= 17,
{
    let current = match inputs.level {
        Some(level) => level,
        None => s.current_level,
    };
    let wide: u32 = current.bits as u32 * NINE_BITS;
    let nb_leds: u8 = (wide / 0x800_0000) as u8;
    let leds: u8 = if nb_leds >= 8 {
        0xFF
    } else {
        proof {
            lemma_u8_pow2_no_overflow(nb_leds as nat);
            lemma_u8_shl_is_mul(1, nb_leds);
        }
        (1u8 << nb_leds) - 1
    };
    (State { current_level: current }, Outputs { adc_value: current, nb_lebs: nb_leds, leds })
}

/// An iteration where no level is ready repeats the previous iteration's
/// state and outputs.
pub proof fn lemma_not_ready_holds(s: State, inputs: Inputs)
    ensures
        advance_spec(advance_spec(s, inputs).0, Inputs { level: None }) == advance_spec(s, inputs),
{
}

/// Diagnostic line `nb_leds=<n>\tled_byte=<bits>\tadc_value=<level bits>\n`.
pub fn telemetry(outputs: &Outputs) -> (r: Vec<u8>)
    ensures
        r@ == "nb_leds=".spec_bytes() + decimal(outputs.nb_lebs as nat) + "\tled_byte=".spec_bytes()
            + decimal(outputs.leds as nat) + "\tadc_value=".spec_bytes() + decimal(
            outputs.adc_value.bits as nat,
        ) + "\n".spec_bytes(),
{
    let mut out: Vec<u8> = Vec::new();
    push_str(&mut out, "nb_leds=");
    push_decimal(&mut out, outputs.nb_lebs as u32);
    push_str(&mut out, "\tled_byte=");
    push_decimal(&mut out, outputs.leds as u32);
    push_str(&mut out, "\tadc_value=");
    push_decimal(&mut out, outputs.adc_value.bits as u32);
    push_str(&mut out, "\n");
    out
}

} // verus!
