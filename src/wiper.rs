//! Servo sweep.
//!
//! The servo turns one way at a fixed angular speed while the button is held
//! and the other way while it is released, and never leaves its range.
use crate::fixed_point::{I3F13, U1F15};
use vstd::arithmetic::div_mod::lemma_div_is_ordered;
use vstd::arithmetic::mul::lemma_mul_inequality;
use crate::telemetry::{boolean, decimal, push_boolean, push_decimal, push_str};
use vstd::prelude::*;
use vstd::string::StringSliceAdditionalSpecFns;

verus! {

/// What the loop reads in one iteration.
#[derive(Clone, Copy, Debug, PartialEq, Eq, Structural)]
pub struct Inputs {
    pub ms: u32,
    pub button_pressed: bool,
}

/// What the loop applies in one iteration.
#[derive(Clone, Copy, Debug, PartialEq, Eq, Structural)]
pub struct Outputs {
    pub position: I3F13,
    pub button: bool,
}

/// Current position and the time it was computed at.
#[derive(Clone, Copy, Debug, PartialEq, Eq, Structural)]
pub struct State {
    pub position: I3F13,
    pub ts: u32,
}

/// Fixed configuration of the sweep.
pub struct Parameters {
    /// Angular speed, in radians per second.
    pub absolute_speed: U1F15,
    /// Lowest position, in radians, and the pulse width that reaches it.
    pub min_position: I3F13,
    pub min_position_us: u16,
    /// Highest position, in radians, and the pulse width that reaches it.
    pub max_position: I3F13,
    pub max_position_us: u16,
    /// Period of the pulse signal.
    pub pwm_period_us: u32,
}

impl Parameters {
    /// A non-empty position range mapped onto a pulse range whose longest
    /// pulse fits in the period.
    pub open spec fn wf(&self) -> bool {
        &&& self.min_position.bits < self.max_position.bits
        &&& self.min_position_us <= self.max_position_us
        &&& self.max_position_us <= self.pwm_period_us
        &&& self.pwm_period_us > 0
    }
}

/// The state the sweep starts in: at the lowest position, at time zero.
pub fn initial_state(p: &Parameters) -> (r: State)
    ensures
        r == (State { position: p.min_position, ts: 0 }),
{
    State { position: p.min_position, ts: 0 }
}

/// Milliseconds from `ts` to `ms`, taken modulo 2^16 as a signed 16-bit
/// number, so that short gaps survive a wrap of the clock.
pub open spec fn elapsed_ms(ms: u32, ts: u32) -> int {
    let low = (ms - ts) % 0x1_0000;
    if low >= 0x8000 {
        low - 0x1_0000
    } else {
        low
    }
}

/// The speed in Q3.13 raw units per second.
pub open spec fn speed_bits(p: Parameters) -> int {
    (p.absolute_speed.bits / 4) as int
}

/// Position change, in Q3.13 raw units, over `dt` milliseconds; the
/// quotient is truncated toward zero.
pub open spec fn position_delta(p: Parameters, pressed: bool, dt: int) -> int {
    let v = if pressed {
        speed_bits(p) * dt
    } else {
        -(speed_bits(p) * dt)
    };
    if v >= 0 {
        v / 1000
    } else {
        -((-v) / 1000)
    }
}

/// `x` brought into the position range: `min(max_position, max(min_position, x))`.
pub open spec fn clamp_position(p: Parameters, x: int) -> int {
    let lo = if x < p.min_position.bits {
        p.min_position.bits as int
    } else {
        x
    };
    if p.max_position.bits < lo {
        p.max_position.bits as int
    } else {
        lo
    }
}

/// One step of the sweep.
pub fn update_state(p: &Parameters, s: State, input: Inputs) -> (r: (State, Outputs))
    ensures
        r.0.position.bits == clamp_position(
            *p,
            s.position.bits + position_delta(*p, input.button_pressed, elapsed_ms(input.ms, s.ts)),
        ),
        r.0.ts == input.ms,
        r.1 == (Outputs { position: r.0.position, button: input.button_pressed }),
        p.min_position.bits <= p.max_position.bits ==> p.min_position.bits <= r.0.position.bits
            <= p.max_position.bits,
{
    let speed: i64 = I3F13::from_u1f15(p.absolute_speed).bits as i64;
    let ms_low: i64 = (input.ms % 0x1_0000) as i64;
    let ts_low: i64 = (s.ts % 0x1_0000) as i64;
    let diff: i64 = ms_low - ts_low;
    let low: i64 = if diff < 0 {
        diff + 0x1_0000
    } else {
        diff
    };
    proof {
        assert(low == (input.ms - s.ts) % 0x1_0000) by (nonlinear_arith)
            requires
                ms_low == input.ms % 0x1_0000,
                ts_low == s.ts % 0x1_0000,
                diff == ms_low - ts_low,
                low == if diff < 0 {
                    diff + 0x1_0000
                } else {
                    diff as int
                },
        ;
    }
    let dt: i64 = if low >= 0x8000 {
        low - 0x1_0000
    } else {
        low
    };
    let magnitude: i64 = if dt >= 0 {
        dt
    } else {
        -dt
    };
    assert(0 <= speed * magnitude <= 0x4000 * 0x8000) by (nonlinear_arith)
        requires
            0 <= speed < 0x4000,
            0 <= magnitude <= 0x8000,
    ;
    let step: i64 = speed * magnitude / 1000;
    // Moving up while pressed and down while released, or the reverse when
    // the clock went backwards.
    let up: bool = input.button_pressed == (dt >= 0);
    let delta: i64 = if up {
        step
    } else {
        -step
    };
    proof {
        let v = if input.button_pressed {
            speed * dt
        } else {
            -(speed * dt)
        };
        assert(v == if up {
            speed * magnitude
        } else {
            -(speed * magnitude)
        }) by (nonlinear_arith)
            requires
                magnitude == if dt >= 0 {
                    dt as int
                } else {
                    -dt
                },
                up == (input.button_pressed == (dt >= 0)),
                v == if input.button_pressed {
                    speed * dt
                } else {
                    -(speed * dt)
                },
        ;
    }
    let x: i64 = s.position.bits as i64 + delta;
    let lo: i64 = if x < p.min_position.bits as i64 {
        p.min_position.bits as i64
    } else {
        x
    };
    let clamped: i16 = if (p.max_position.bits as i64) < lo {
        p.max_position.bits
    } else {
        lo as i16
    };
    let position = I3F13 { bits: clamped };
    (State { position, ts: input.ms }, Outputs { position, button: input.button_pressed })
}

/// Pulse width, in microseconds, for a position: linear from the lowest to
/// the highest position.
pub open spec fn duty_us_of(p: Parameters, position: int) -> int {
    p.min_position_us + (position - p.min_position.bits) * (p.max_position_us - p.min_position_us)
        / (p.max_position.bits - p.min_position.bits)
}

/// Duty-cycle register value for a position, given the register's maximum:
/// the pulse's share of the period, scaled to the maximum.
pub open spec fn duty_of(p: Parameters, position: int, max_duty: u16) -> int {
    duty_us_of(p, position) * max_duty / p.pwm_period_us as int
}

/// The pulse to send for a position, with the intermediate values reported
/// on the diagnostic line.
#[derive(Clone, Copy, Debug, PartialEq, Eq, Structural)]
pub struct ServoCommand {
    /// Register value to write.
    pub duty: u16,
    /// Pulse width in microseconds.
    pub duty_us: u16,
    /// Raw width of the position range.
    pub position_range: u32,
    /// Width of the pulse range in microseconds.
    pub duty_range_us: u16,
    /// Raw distance of the position from the lowest position.
    pub t: u32,
}

/// Converts a position into the pulse that drives the servo there.
pub fn servo_command(p: &Parameters, position: I3F13, max_duty: u16) -> (r: ServoCommand)
    requires
        p.wf(),
        p.min_position.bits <= position.bits <= p.max_position.bits,
    ensures
        r.duty_us == duty_us_of(*p, position.bits as int),
        r.duty == duty_of(*p, position.bits as int, max_duty),
        r.position_range == p.max_position.bits - p.min_position.bits,
        r.duty_range_us == p.max_position_us - p.min_position_us,
        r.t == position.bits - p.min_position.bits,
{
    let position_range: u32 = (p.max_position.bits as i32 - p.min_position.bits as i32) as u32;
    let duty_range_us: u16 = p.max_position_us - p.min_position_us;
    let t: u32 = (position.bits as i32 - p.min_position.bits as i32) as u32;
    let t64: u64 = t as u64;
    let range64: u64 = position_range as u64;
    let dr64: u64 = duty_range_us as u64;
    proof {
        lemma_mul_inequality(t as int, position_range as int, duty_range_us as int);
        lemma_div_is_ordered(t * duty_range_us, position_range * duty_range_us, position_range as int);
        vstd::arithmetic::div_mod::lemma_div_multiples_vanish(duty_range_us as int, position_range as int);
        assert(t * duty_range_us <= 0x1_0000 * 0x1_0000) by (nonlinear_arith)
            requires
                t <= 0x1_0000,
                duty_range_us < 0x1_0000,
        ;
    }
    let offset: u64 = t64 * dr64 / range64;
    let duty_us: u16 = p.min_position_us + offset as u16;
    assert(duty_us * max_duty < 0x1_0000 * 0x1_0000) by (nonlinear_arith)
        requires
            duty_us < 0x1_0000,
            max_duty < 0x1_0000,
    ;
    let scaled: u64 = (duty_us as u64) * (max_duty as u64) / (p.pwm_period_us as u64);
    proof {
        // The pulse is no longer than the period, so the duty stays within the maximum.
        let period = p.pwm_period_us as int;
        lemma_mul_inequality(duty_us as int, period, max_duty as int);
        lemma_div_is_ordered(duty_us * max_duty, period * max_duty, period);
        assert(period * max_duty == max_duty * period) by (nonlinear_arith);
        vstd::arithmetic::div_mod::lemma_div_multiples_vanish(max_duty as int, period);
    }
    let duty: u16 = scaled as u16;
    ServoCommand { duty, duty_us, position_range, duty_range_us, t }
}

/// A step at the time of the previous one leaves a position inside the
/// range where it is.
pub proof fn lemma_zero_delay_keeps_position(p: Parameters, s: State, pressed: bool)
    requires
        p.min_position.bits <= s.position.bits <= p.max_position.bits,
    ensures
        clamp_position(p, s.position.bits + position_delta(p, pressed, elapsed_ms(s.ts, s.ts)))
            == s.position.bits,
{
    assert(elapsed_ms(s.ts, s.ts) == 0);
    assert(speed_bits(p) * 0 == 0);
}

/// The duty cycle never decreases as the position rises.
pub proof fn lemma_duty_monotonic(p: Parameters, a: int, b: int, max_duty: u16)
    requires
        p.wf(),
        p.min_position.bits <= a <= b <= p.max_position.bits,
    ensures
        duty_of(p, a, max_duty) <= duty_of(p, b, max_duty),
{
    let range = p.max_position.bits - p.min_position.bits;
    let span = p.max_position_us - p.min_position_us;
    let period = p.pwm_period_us as int;
    lemma_mul_inequality(a - p.min_position.bits, b - p.min_position.bits, span);
    lemma_div_is_ordered((a - p.min_position.bits) * span, (b - p.min_position.bits) * span, range);
    lemma_mul_inequality(b - p.min_position.bits, range, span);
    lemma_div_is_ordered((b - p.min_position.bits) * span, range * span, range);
    vstd::arithmetic::div_mod::lemma_div_multiples_vanish(span, range);
    assert(range * span == span * range) by (nonlinear_arith);
    let ua = duty_us_of(p, a);
    let ub = duty_us_of(p, b);
    assert(0 <= ua <= ub <= p.max_position_us);
    lemma_mul_inequality(ua, ub, max_duty as int);
    lemma_div_is_ordered(ua * max_duty, ub * max_duty, period);
    lemma_mul_inequality(ub, period, max_duty as int);
    lemma_div_is_ordered(ub * max_duty, period * max_duty, period);
    assert(period * max_duty == max_duty * period) by (nonlinear_arith);
    vstd::arithmetic::div_mod::lemma_div_multiples_vanish(max_duty as int, period);
    assert(0 <= ua * max_duty) by (nonlinear_arith)
        requires
            ua >= 0,
    ;
    vstd::arithmetic::div_mod::lemma_div_pos_is_pos(ua * max_duty, period);
}

/// Diagnostic line `button=<bool>\tmax_duty=<n>\tduty=<n>\tposition_range=<n>\t`
/// `duty_range_us=<n>\tt=<n>\tduty_us=<n>\n`.
pub fn telemetry(button: bool, max_duty: u16, c: &ServoCommand) -> (r: Vec<u8>)
    ensures
        r@ == "button=".spec_bytes() + boolean(button) + "\tmax_duty=".spec_bytes() + decimal(
            max_duty as nat,
        ) + "\tduty=".spec_bytes() + decimal(c.duty as nat) + "\tposition_range=".spec_bytes()
            + decimal(c.position_range as nat) + "\tduty_range_us=".spec_bytes() + decimal(
            c.duty_range_us as nat,
        ) + "\tt=".spec_bytes() + decimal(c.t as nat) + "\tduty_us=".spec_bytes() + decimal(
            c.duty_us as nat,
        ) + "\n".spec_bytes(),
{
    let mut out: Vec<u8> = Vec::new();
    push_str(&mut out, "button=");
    push_boolean(&mut out, button);
    push_str(&mut out, "\tmax_duty=");
    push_decimal(&mut out, max_duty as u32);
    push_str(&mut out, "\tduty=");
    push_decimal(&mut out, c.duty as u32);
    push_str(&mut out, "\tposition_range=");
    push_decimal(&mut out, c.position_range);
    push_str(&mut out, "\tduty_range_us=");
    push_decimal(&mut out, c.duty_range_us as u32);
    push_str(&mut out, "\tt=");
    push_decimal(&mut out, c.t);
    push_str(&mut out, "\tduty_us=");
    push_decimal(&mut out, c.duty_us as u32);
    push_str(&mut out, "\n");
    out
}

} // verus!
