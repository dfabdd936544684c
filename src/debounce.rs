//! Two ways of counting the presses of a bouncing button.
//!
//! The left button goes through a moving average and counts a press when the
//! average rises past a threshold. The right button counts every change from
//! released to pressed, bounces included.
use crate::fixed_point::{U1F15, U1F15_ONE};
use crate::low_pass::{FixedLowPassParams, FixedLowPassState};
use crate::telemetry::{decimal, push_decimal, push_str};
use vstd::string::StringSliceAdditionalSpecFns;
use vstd::prelude::*;

verus! {

/// What the loop reads in one iteration.
#[derive(Clone, Copy, Debug, PartialEq, Eq, Structural)]
pub struct Inputs {
    pub ms: u32,
    pub left_button: bool,
    pub right_button: bool,
}

/// What the loop reports in one iteration.
#[derive(Clone, Copy, Debug, PartialEq, Eq, Structural)]
pub struct Outputs {
    /// Average of the left button, in [0, 2).
    pub left_button_val: U1F15,
    pub left_presses: u32,
    pub right_presses: u32,
}

/// Fixed configuration.
pub struct Parameters {
    pub low_pass_params: FixedLowPassParams,
    /// Level past which the left button counts as pressed.
    pub threshold: U1F15,
}

impl Parameters {
    /// The average's parameters are valid.
    pub open spec fn wf(&self) -> bool {
        self.low_pass_params.wf()
    }
}

/// What is kept between iterations.
#[derive(Clone, Copy, Debug, PartialEq, Eq, Structural)]
pub struct State {
    /// Moving average of the left button, between 0 and one.
    pub left_button: FixedLowPassState,
    /// Whether the right button was pressed at the previous iteration.
    pub right_button: bool,
    pub left_presses: u32,
    pub right_presses: u32,
}

/// Nothing pressed, nothing counted, at time zero.
pub fn initial_state() -> (r: State)
    ensures
        r.left_button.current_average.bits == 0,
        r.left_button.current_ts == 0,
        !r.right_button,
        r.left_presses == 0,
        r.right_presses == 0,
{
    State { left_button: FixedLowPassState::new(), right_button: false, left_presses: 0, right_presses: 0 }
}

/// A counter plus one when `pressed`, wrapping at 2^32.
pub open spec fn count(c: u32, pressed: bool) -> u32 {
    if pressed {
        ((c + 1) % 0x1_0000_0000) as u32
    } else {
        c
    }
}

/// The result of one step.
pub open spec fn advance_spec(p: Parameters, s: State, inputs: Inputs) -> (State, Outputs) {
    let sample = if inputs.left_button {
        U1F15_ONE
    } else {
        0u16
    };
    let left = s.left_button.next(p.low_pass_params, sample, inputs.ms);
    let left_pressed = left.current_average.bits > p.threshold.bits
        && s.left_button.current_average.bits <= p.threshold.bits;
    let right_pressed = inputs.right_button && !s.right_button;
    let new_state = State {
        left_button: left,
        right_button: inputs.right_button,
        left_presses: count(s.left_presses, left_pressed),
        right_presses: count(s.right_presses, right_pressed),
    };
    (
        new_state,
        Outputs {
            left_button_val: left.current_average,
            left_presses: new_state.left_presses,
            right_presses: new_state.right_presses,
        },
    )
}

/// One step of both counters.
pub fn advance(p: &Parameters, s: State, inputs: Inputs) -> (r: (State, Outputs))
    requires
        p.wf(),
    ensures
        r == advance_spec(*p, s, inputs),
{
    let old_left_value = s.left_button.current_val();
    let new_left_button = s.left_button.advance(
        &p.low_pass_params,
        U1F15::from_bool(inputs.left_button),
        inputs.ms,
    );
    let new_left_value = new_left_button.current_val();
    let left_pressed = new_left_value.bits > p.threshold.bits && old_left_value.bits
        <= p.threshold.bits;
    let right_pressed = inputs.right_button && !s.right_button;
    let left_presses = if left_pressed {
        s.left_presses.wrapping_add(1)
    } else {
        s.left_presses
    };
    let right_presses = if right_pressed {
        s.right_presses.wrapping_add(1)
    } else {
        s.right_presses
    };
    let new_state = State {
        left_button: new_left_button,
        right_button: inputs.right_button,
        left_presses,
        right_presses,
    };
    let outputs = Outputs { left_button_val: new_left_value, left_presses, right_presses };
    (new_state, outputs)
}

/// A step at the time of the previous sample, with the right button as it
/// was, changes nothing: the average stays, so no threshold is crossed.
pub proof fn lemma_zero_delay_keeps_state(p: Parameters, s: State, inputs: Inputs)
    requires
        p.wf(),
        inputs.ms == s.left_button.current_ts,
        inputs.right_button == s.right_button,
    ensures
        advance_spec(p, s, inputs).0 == s,
{
    let sample = if inputs.left_button {
        U1F15_ONE
    } else {
        0u16
    };
    crate::low_pass::lemma_zero_delay_keeps_state(s.left_button, p.low_pass_params, sample);
}

/// Diagnostic line `<average bits>\t<left presses>\t<right presses>\n`.
pub fn telemetry(outputs: &Outputs) -> (r: Vec<u8>)
    ensures
        r@ == decimal(outputs.left_button_val.bits as nat) + "\t".spec_bytes() + decimal(
            outputs.left_presses as nat,
        ) + "\t".spec_bytes() + decimal(outputs.right_presses as nat) + "\n".spec_bytes(),
{
    let mut out: Vec<u8> = Vec::new();
    push_decimal(&mut out, outputs.left_button_val.bits as u32);
    push_str(&mut out, "\t");
    push_decimal(&mut out, outputs.left_presses);
    push_str(&mut out, "\t");
    push_decimal(&mut out, outputs.right_presses);
    push_str(&mut out, "\n");
    out
}

} // verus!
