//! Electronic dice.
//!
//! A press of the button makes the dice blink through random faces, each
//! shown a little longer than the previous one, then settle on a face.
use crate::chrono::ms_add;
use vstd::prelude::*;

verus! {

/// A face of the dice, from 1 to 6.
#[derive(Clone, Copy, Debug, PartialEq, Eq, Structural)]
pub struct DiceRoll(u8);

impl View for DiceRoll {
    type V = u8;

    closed spec fn view(&self) -> u8 {
        self.0
    }
}

/// The face obtained from a random draw: `v - 1` (wrapping) modulo 6, plus 1.
pub open spec fn face_of(v: u32) -> u8 {
    ((((v - 1) % 0x1_0000_0000) % 6) + 1) as u8
}

impl DiceRoll {
    /// Reduces a random draw to a face.
    pub fn from_int_modulo(v: u32) -> (r: DiceRoll)
        ensures
            r@ == face_of(v),
            1 <= r@ <= 6,
    {
        DiceRoll(((v.wrapping_sub(1) % 6) + 1) as u8)
    }

    /// The face as a number.
    pub fn to_u8(&self) -> (r: u8)
        ensures
            r == self@,
    {
        self.0
    }
}

/// What the loop reads in one iteration.
#[derive(Clone, Copy, Debug, PartialEq, Eq, Structural)]
pub struct Inputs {
    pub ms: u32,
    pub button_pressed: bool,
    /// A fresh draw, taken on every iteration whether it is used or not.
    pub roll: DiceRoll,
}

/// What the loop drives in one iteration: the five lights of a face.
#[derive(Clone, Copy, Debug, PartialEq, Eq)]
pub struct Outputs {
    pub leds: [bool; 5],
}

/// Phase of the dice.
#[derive(Clone, Copy, Debug, PartialEq, Eq, Structural)]
pub enum State {
    /// Blinking: index of the blink, face shown, time at which the blink ends.
    Blinking(u8, DiceRoll, u32),
    /// Showing the final face.
    ShowingResult(DiceRoll),
}

/// Fixed configuration of the dice.
pub struct Parameters {
    /// Number of blinks before the result is shown.
    pub nb_blinks: u8,
    pub first_blink_duration_ms: u32,
    pub last_blink_duration_ms: u32,
}

impl Parameters {
    /// When there are blinks, they get longer, never shorter.
    pub open spec fn wf(&self) -> bool {
        self.nb_blinks > 0 ==> self.first_blink_duration_ms <= self.last_blink_duration_ms
    }
}

/// Duration of blink `i`, interpolated from the first to the last duration.
pub open spec fn blink_duration(p: Parameters, i: int) -> int {
    p.first_blink_duration_ms + (p.last_blink_duration_ms - p.first_blink_duration_ms) * i
        / p.nb_blinks as int
}

/// One step of the dice.
pub fn update_state(p: &Parameters, s: State, input: Inputs) -> (r: State)
    requires
        p.wf(),
    ensures
        match s {
            State::Blinking(n, _, end) => if input.ms > end {
                if n + 1 > p.nb_blinks {
                    r == State::ShowingResult(input.roll)
                } else {
                    r == State::Blinking(
                        (n + 1) as u8,
                        input.roll,
                        ms_add(input.ms, blink_duration(*p, n + 1) as u32),
                    )
                }
            } else {
                r == s
            },
            State::ShowingResult(_) => if input.button_pressed {
                if p.nb_blinks > 0 {
                    r == State::Blinking(0, input.roll, ms_add(p.first_blink_duration_ms, input.ms))
                } else {
                    r == State::ShowingResult(input.roll)
                }
            } else {
                r == s
            },
        },
{
    match s {
        State::Blinking(blink_number, _, blink_end_time) => {
            if input.ms > blink_end_time {
                if blink_number >= p.nb_blinks {
                    // Enough blinks: the current draw is the result.
                    State::ShowingResult(input.roll)
                } else {
                    let next_blink_number = blink_number + 1;
                    let duration = blink_duration_at(p, next_blink_number);
                    State::Blinking(next_blink_number, input.roll, input.ms.wrapping_add(duration))
                }
            } else {
                s
            }
        },
        State::ShowingResult(_) => {
            if input.button_pressed {
                if p.nb_blinks > 0 {
                    State::Blinking(
                        0,
                        input.roll,
                        p.first_blink_duration_ms.wrapping_add(input.ms),
                    )
                } else {
                    State::ShowingResult(input.roll)
                }
            } else {
                s
            }
        },
    }
}

/// Duration of the `i`-th blink, an affine function of `i`.
pub fn blink_duration_at(p: &Parameters, i: u8) -> (r: u32)
    requires
        p.wf(),
        0 < p.nb_blinks,
        i <= p.nb_blinks,
    ensures
        r == blink_duration(*p, i as int),
        p.first_blink_duration_ms <= r <= p.last_blink_duration_ms,
{
    let span: u64 = (p.last_blink_duration_ms - p.first_blink_duration_ms) as u64;
    let nb: u64 = p.nb_blinks as u64;
    let ii: u64 = i as u64;
    assert(span * ii <= span * nb) by (nonlinear_arith)
        requires
            ii <= nb,
    ;
    assert(span * nb <= span * 0x100) by (nonlinear_arith)
        requires
            nb <= 0x100,
    ;
    assert(span * ii / (nb as int) <= span) by (nonlinear_arith)
        requires
            ii <= nb,
            nb > 0,
    ;
    let extra: u64 = span * ii / nb;
    p.first_blink_duration_ms + extra as u32
}

/// The lights of face `v`; any other value lights nothing.
pub open spec fn face_pattern(v: u8) -> [bool; 5] {
    if v == 1 {
        [false, false, true, false, false]
    } else if v == 2 {
        [true, false, false, false, true]
    } else if v == 3 {
        [true, false, true, false, true]
    } else if v == 4 {
        [true, true, false, true, true]
    } else if v == 5 {
        [true, true, true, true, true]
    } else {
        [false, false, false, false, false]
    }
}

/// The lights for the face shown in a state.
pub fn make_outputs(s: &State) -> (r: Outputs)
    ensures
        r.leds == face_pattern(
            match *s {
                State::Blinking(_, roll, _) => roll@,
                State::ShowingResult(roll) => roll@,
            },
        ),
{
    let roll = match s {
        State::Blinking(_, roll, _) => roll,
        State::ShowingResult(roll) => roll,
    };
    Outputs { leds: u8_to_array5(roll.to_u8()) }
}

/// Light pattern of a face, laid out as
/// ```text
/// r[0]    r[1]
///     r[2]
/// r[3]    r[4]
/// ```
pub fn u8_to_array5(v: u8) -> (r: [bool; 5])
    ensures
        r == face_pattern(v),
{
    match v {
        1 => [false, false, true, false, false],
        2 => [true, false, false, false, true],
        3 => [true, false, true, false, true],
        4 => [true, true, false, true, true],
        5 => [true, true, true, true, true],
        _ => [false, false, false, false, false],
    }
}

} // verus!
