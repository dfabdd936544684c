//! Reaction game for two players.
//!
//! Both lights blink for a while; a player who presses during the blinking
//! loses. Once the lights go off, the first to press wins. The winner's light
//! stays on for a moment, then the game starts over.
use vstd::prelude::*;

verus! {

/// What the loop reads in one iteration.
#[derive(Clone, Copy, Debug, PartialEq, Eq, Structural)]
pub struct Inputs {
    pub ms: u32,
    /// True while the left button is pressed.
    pub left_button: bool,
    /// True while the right button is pressed.
    pub right_button: bool,
}

/// What the loop drives in one iteration.
#[derive(Clone, Copy, Debug, PartialEq, Eq, Structural)]
pub struct Outputs {
    pub left_led: bool,
    pub right_led: bool,
}

/// Phase of the game.
#[derive(Clone, Copy, Debug, PartialEq, Eq, Structural)]
pub enum State {
    /// Pre-game blinking, started at the given time. Pressing now loses.
    Blinking(u32),
    /// Lights off, waiting for the first press.
    WaitingForFastest(),
    /// Showing the winner(s), since the given time: left won, right won.
    ShowingWinner(u32, bool, bool),
}

/// Fixed configuration of the game.
pub struct Parameters {
    /// Number of blinks before the players may press.
    pub nb_blinks: u32,
    /// Whole duration of the pre-game blinking.
    pub blink_duration_ms: u32,
    /// How long the result is shown.
    pub show_winner_duration: u32,
}

impl Parameters {
    /// Each blink lasts at least one millisecond.
    pub open spec fn wf(&self) -> bool {
        &&& self.nb_blinks > 0
        &&& self.blink_duration_ms / self.nb_blinks > 0
    }

    /// Length of one blink cycle.
    pub open spec fn blink_period(&self) -> int {
        self.blink_duration_ms as int / self.nb_blinks as int
    }
}

/// Both lights off.
pub open spec fn leds_off() -> Outputs {
    Outputs { left_led: false, right_led: false }
}

/// Whether the lights are on at time `ms` of a blinking phase started at
/// `start`: on during the second half of each cycle.
pub open spec fn blink_on(p: Parameters, start: u32, ms: u32) -> bool
    recommends
        p.wf(),
        start <= ms,
{
    (ms - start) % p.blink_period() > p.blink_period() / 2
}

/// One step of the game.
pub fn advance(p: &Parameters, s: State, input: Inputs) -> (r: (State, Outputs))
    requires
        p.wf(),
    ensures
        match s {
            State::Blinking(start) => if start > input.ms {
                r == (State::Blinking(input.ms), leds_off())
            } else if input.ms > p.blink_duration_ms + start {
                r == (State::WaitingForFastest(), leds_off())
            } else if input.left_button || input.right_button {
                r == (State::ShowingWinner(input.ms, input.right_button, input.left_button), leds_off())
            } else {
                let on = blink_on(*p, start, input.ms);
                r == (s, Outputs { left_led: on, right_led: on })
            },
            State::WaitingForFastest() => if input.left_button || input.right_button {
                r == (State::ShowingWinner(input.ms, input.left_button, input.right_button), leds_off())
            } else {
                r == (s, leds_off())
            },
            State::ShowingWinner(start, left_won, right_won) => {
                let shown = Outputs { left_led: left_won, right_led: right_won };
                if start > input.ms {
                    r == (State::ShowingWinner(input.ms, left_won, right_won), shown)
                } else if input.ms > p.show_winner_duration + start {
                    r == (State::Blinking(input.ms), leds_off())
                } else {
                    r == (s, shown)
                }
            },
        },
{
    let led_off = Outputs { left_led: false, right_led: false };
    match s {
        State::Blinking(start) => {
            if start > input.ms {
                // The clock wrapped around: restart the phase now.
                (State::Blinking(input.ms), led_off)
            } else if input.ms as u64 > p.blink_duration_ms as u64 + start as u64 {
                (State::WaitingForFastest(), led_off)
            } else if input.left_button || input.right_button {
                // Whoever pressed too early loses: the other side wins.
                (State::ShowingWinner(input.ms, input.right_button, input.left_button), led_off)
            } else {
                let since_blink = input.ms - start;
                let period = p.blink_duration_ms / p.nb_blinks;
                let cycle_position = since_blink % period;
                let led_on = cycle_position > period / 2;
                (s, Outputs { left_led: led_on, right_led: led_on })
            }
        },
        State::WaitingForFastest() => {
            let new_state = if input.left_button || input.right_button {
                State::ShowingWinner(input.ms, input.left_button, input.right_button)
            } else {
                s
            };
            (new_state, led_off)
        },
        State::ShowingWinner(start, left_won, right_won) => {
            let result = Outputs { left_led: left_won, right_led: right_won };
            if start > input.ms {
                // The clock wrapped around: restart the phase now.
                (State::ShowingWinner(input.ms, left_won, right_won), result)
            } else if input.ms as u64 > p.show_winner_duration as u64 + start as u64 {
                (State::Blinking(input.ms), led_off)
            } else {
                (s, result)
            }
        },
    }
}

} // verus!
