use exercises::chenillard;
use exercises::cowboy;
use exercises::debounce;
use exercises::dice::{self, DiceRoll};
use exercises::fixed_point::{I3F13, U1F15, U24F8, U6F26};
use exercises::leds::led_on;
use exercises::millis::{next_millis, MILLIS_INCREMENT};
use exercises::low_pass::{pow_int, FixedLowPassParams, FixedLowPassState};
use exercises::telemetry::{push_decimal, push_str};
use exercises::timer_params::{compute_timer_params, PreciseTimerParams};
use exercises::vumetre;
use exercises::wiper;

// ---- chenillard

#[test]
fn chenillard_one_light_per_eighth_of_period() {
    let p = chenillard::Parameters { period_ms: 1000 };
    let expected = [1u8, 2, 4, 8, 16, 32, 64, 128];
    for (i, e) in expected.iter().enumerate() {
        let ms = 125 * i as u32 + 10;
        assert_eq!(chenillard::advance(&p, chenillard::Inputs { ms }).leds, *e);
    }
    assert_eq!(chenillard::advance(&p, chenillard::Inputs { ms: 999 }).leds, 128);
    assert_eq!(chenillard::advance(&p, chenillard::Inputs { ms: 1000 }).leds, 1);
    assert_eq!(chenillard::advance(&p, chenillard::Inputs { ms: u32::MAX }).leds, 4);
}

#[test]
fn chenillard_exactly_one_bit() {
    let p = chenillard::Parameters { period_ms: 777 };
    for ms in [0u32, 1, 96, 97, 500, 776, 777, 123_456, u32::MAX] {
        let leds = chenillard::advance(&p, chenillard::Inputs { ms }).leds;
        assert_eq!(leds.count_ones(), 1);
        let lit = (0..8u8).filter(|i| led_on(leds, *i)).count();
        assert_eq!(lit, 1);
    }
}

#[test]
fn chenillard_large_period_does_not_overflow() {
    let p = chenillard::Parameters { period_ms: u32::MAX };
    assert_eq!(chenillard::advance(&p, chenillard::Inputs { ms: u32::MAX - 1 }).leds, 128);
}

// ---- cowboy

fn cowboy_params() -> cowboy::Parameters {
    cowboy::Parameters { nb_blinks: 5, blink_duration_ms: 1000, show_winner_duration: 3000 }
}

fn cowboy_in(ms: u32, left_button: bool, right_button: bool) -> cowboy::Inputs {
    cowboy::Inputs { ms, left_button, right_button }
}

const OFF: cowboy::Outputs = cowboy::Outputs { left_led: false, right_led: false };

#[test]
fn cowboy_early_press_makes_other_side_win() {
    let p = cowboy_params();
    let (s, o) = cowboy::advance(&p, cowboy::State::Blinking(100), cowboy_in(500, true, false));
    assert_eq!(s, cowboy::State::ShowingWinner(500, false, true));
    assert_eq!(o, OFF);
    let (s, _) = cowboy::advance(&p, cowboy::State::Blinking(100), cowboy_in(500, false, true));
    assert_eq!(s, cowboy::State::ShowingWinner(500, true, false));
}

#[test]
fn cowboy_simultaneous_presses_credit_both() {
    let p = cowboy_params();
    let (s, _) = cowboy::advance(&p, cowboy::State::Blinking(0), cowboy_in(10, true, true));
    assert_eq!(s, cowboy::State::ShowingWinner(10, true, true));
    let (s, _) = cowboy::advance(&p, cowboy::State::WaitingForFastest(), cowboy_in(2000, true, true));
    assert_eq!(s, cowboy::State::ShowingWinner(2000, true, true));
}

#[test]
fn cowboy_blinking_ends_then_fastest_wins() {
    let p = cowboy_params();
    let (s, o) = cowboy::advance(&p, cowboy::State::Blinking(0), cowboy_in(1001, false, false));
    assert_eq!(s, cowboy::State::WaitingForFastest());
    assert_eq!(o, OFF);
    let (s, o) = cowboy::advance(&p, s, cowboy_in(1500, false, false));
    assert_eq!(s, cowboy::State::WaitingForFastest());
    assert_eq!(o, OFF);
    let (s, o) = cowboy::advance(&p, s, cowboy_in(1600, false, true));
    assert_eq!(s, cowboy::State::ShowingWinner(1600, false, true));
    assert_eq!(o, OFF);
    let (s, o) = cowboy::advance(&p, s, cowboy_in(4600, false, false));
    assert_eq!(s, cowboy::State::ShowingWinner(1600, false, true));
    assert_eq!(o, cowboy::Outputs { left_led: false, right_led: true });
    let (s, o) = cowboy::advance(&p, s, cowboy_in(4601, true, false));
    assert_eq!(s, cowboy::State::Blinking(4601));
    assert_eq!(o, OFF);
}

#[test]
fn cowboy_blink_pattern() {
    let p = cowboy_params();
    // Period 200 ms: on during the second half of each cycle.
    for (ms, on) in [(0u32, false), (100, false), (101, true), (199, true), (200, false), (1000, false)] {
        let (s, o) = cowboy::advance(&p, cowboy::State::Blinking(0), cowboy_in(ms, false, false));
        assert_eq!(s, cowboy::State::Blinking(0));
        assert_eq!(o, cowboy::Outputs { left_led: on, right_led: on });
    }
}

#[test]
fn cowboy_clock_rollover_restarts_phase() {
    let p = cowboy_params();
    let (s, o) = cowboy::advance(&p, cowboy::State::Blinking(u32::MAX - 5), cowboy_in(3, true, true));
    assert_eq!(s, cowboy::State::Blinking(3));
    assert_eq!(o, OFF);
    let (s, o) =
        cowboy::advance(&p, cowboy::State::ShowingWinner(u32::MAX, true, false), cowboy_in(7, false, false));
    assert_eq!(s, cowboy::State::ShowingWinner(7, true, false));
    assert_eq!(o, cowboy::Outputs { left_led: true, right_led: false });
}

#[test]
fn cowboy_no_overflow_near_end_of_clock() {
    let p = cowboy_params();
    let (s, _) = cowboy::advance(&p, cowboy::State::Blinking(u32::MAX - 10), cowboy_in(u32::MAX, false, false));
    assert_eq!(s, cowboy::State::Blinking(u32::MAX - 10));
}

// ---- dice

#[test]
fn dice_roll_modulo() {
    assert_eq!(DiceRoll::from_int_modulo(1).to_u8(), 1);
    assert_eq!(DiceRoll::from_int_modulo(6).to_u8(), 6);
    assert_eq!(DiceRoll::from_int_modulo(7).to_u8(), 1);
    assert_eq!(DiceRoll::from_int_modulo(12).to_u8(), 6);
    assert_eq!(DiceRoll::from_int_modulo(0).to_u8(), 4);
    assert_eq!(DiceRoll::from_int_modulo(u32::MAX).to_u8(), 3);
}

#[test]
fn dice_faces() {
    assert_eq!(dice::u8_to_array5(1), [false, false, true, false, false]);
    assert_eq!(dice::u8_to_array5(2), [true, false, false, false, true]);
    assert_eq!(dice::u8_to_array5(3), [true, false, true, false, true]);
    assert_eq!(dice::u8_to_array5(4), [true, true, false, true, true]);
    assert_eq!(dice::u8_to_array5(5), [true, true, true, true, true]);
    assert_eq!(dice::u8_to_array5(6), [false; 5]);
    let s = dice::State::ShowingResult(DiceRoll::from_int_modulo(3));
    assert_eq!(dice::make_outputs(&s).leds, [true, false, true, false, true]);
}

fn dice_params() -> dice::Parameters {
    dice::Parameters { nb_blinks: 10, first_blink_duration_ms: 100, last_blink_duration_ms: 400 }
}

#[test]
fn dice_blink_durations() {
    let p = dice_params();
    assert_eq!(dice::blink_duration_at(&p, 0), 100);
    assert_eq!(dice::blink_duration_at(&p, 1), 130);
    assert_eq!(dice::blink_duration_at(&p, 5), 250);
    assert_eq!(dice::blink_duration_at(&p, 10), 400);
}

#[test]
fn dice_full_throw() {
    let p = dice_params();
    let roll = |v| DiceRoll::from_int_modulo(v);
    let idle = dice::State::ShowingResult(roll(2));
    let s = dice::update_state(&p, idle, dice::Inputs { ms: 50, button_pressed: false, roll: roll(5) });
    assert_eq!(s, idle);
    let s = dice::update_state(&p, idle, dice::Inputs { ms: 50, button_pressed: true, roll: roll(5) });
    assert_eq!(s, dice::State::Blinking(0, roll(5), 150));
    let s2 = dice::update_state(&p, s, dice::Inputs { ms: 150, button_pressed: false, roll: roll(1) });
    assert_eq!(s2, s);
    let s = dice::update_state(&p, s, dice::Inputs { ms: 151, button_pressed: false, roll: roll(1) });
    assert_eq!(s, dice::State::Blinking(1, roll(1), 281));
    let last = dice::State::Blinking(10, roll(4), 1000);
    let s = dice::update_state(&p, last, dice::Inputs { ms: 1001, button_pressed: true, roll: roll(6) });
    assert_eq!(s, dice::State::ShowingResult(roll(6)));
}

#[test]
fn dice_without_blinks_shows_at_once() {
    let p = dice::Parameters { nb_blinks: 0, first_blink_duration_ms: 100, last_blink_duration_ms: 400 };
    let roll = |v| DiceRoll::from_int_modulo(v);
    let s = dice::update_state(
        &p,
        dice::State::ShowingResult(roll(1)),
        dice::Inputs { ms: 9, button_pressed: true, roll: roll(3) },
    );
    assert_eq!(s, dice::State::ShowingResult(roll(3)));
}

#[test]
fn dice_end_time_wraps() {
    let p = dice_params();
    let roll = DiceRoll::from_int_modulo(2);
    let s = dice::update_state(
        &p,
        dice::State::ShowingResult(roll),
        dice::Inputs { ms: u32::MAX - 9, button_pressed: true, roll },
    );
    assert_eq!(s, dice::State::Blinking(0, roll, 90));
}

// ---- low-pass filter

fn u1f15(v: f64) -> U1F15 {
    U1F15::from_bits(fixed::types::U1F15::unwrapped_from_num(v).to_bits())
}

#[test]
fn pow_int_in_q1_15() {
    assert_eq!(pow_int(u1f15(0.5), 3, U1F15::one()), u1f15(0.125));
    assert_eq!(pow_int(u1f15(1.0), 1_000_000, U1F15::one()), U1F15::one());
    assert_eq!(pow_int(u1f15(0.5), u32::MAX, U1F15::one()), U1F15::zero());
    assert_eq!(pow_int(u1f15(0.75), 0, U1F15::one()), U1F15::one());
}

#[test]
fn pow_int_truncates_each_product() {
    // 3/2^26 squared underflows to zero.
    assert_eq!(pow_int(U6F26::from_bits(3), 2, U6F26::one()), U6F26::from_bits(0));
}

#[test]
fn low_pass_moves_toward_sample() {
    let p = FixedLowPassParams { lambda: u1f15(0.5) };
    let s = FixedLowPassState::new();
    assert_eq!(s.current_val(), U1F15::zero());
    let s = s.advance(&p, U1F15::one(), 1);
    assert_eq!(s.current_val(), u1f15(0.5));
    let s = s.advance(&p, U1F15::one(), 3);
    // k = 0.25: 0.25 * 0.5 + 0.75 * 1
    assert_eq!(s.current_val(), u1f15(0.875));
    let s = s.advance(&p, U1F15::zero(), 3);
    assert_eq!(s.current_val(), u1f15(0.875));
}

#[test]
fn low_pass_zero_delay_keeps_state() {
    let p = FixedLowPassParams { lambda: u1f15(0.01) };
    let s = FixedLowPassState::new().advance(&p, U1F15::one(), 40);
    let again = s.advance(&p, U1F15::zero(), 40);
    assert_eq!(again, s);
}

#[test]
fn low_pass_lambda_zero_never_moves() {
    let p = FixedLowPassParams { lambda: U1F15::zero() };
    let s = FixedLowPassState::new().advance(&p, U1F15::one(), 1_000_000);
    assert_eq!(s.current_val(), U1F15::zero());
}

#[test]
fn low_pass_stays_in_range() {
    let p = FixedLowPassParams { lambda: u1f15(0.99) };
    let top = U1F15::from_bits(u16::MAX);
    let mut s = FixedLowPassState::new();
    for t in [1u32, 2, 10, 1000, u32::MAX, 5] {
        s = s.advance(&p, top, t);
        assert!(s.current_val().to_bits() <= u16::MAX);
    }
    assert_eq!(s.current_val(), top);
}

// ---- debounce

#[test]
fn debounce_counts_presses() {
    let p = debounce::Parameters {
        low_pass_params: FixedLowPassParams { lambda: u1f15(0.5) },
        threshold: u1f15(0.7),
    };
    let s = debounce::initial_state();
    let inp = |ms, left_button, right_button| debounce::Inputs { ms, left_button, right_button };
    let (s, o) = debounce::advance(&p, s, inp(1, true, true));
    assert_eq!((o.left_button_val, o.left_presses, o.right_presses), (u1f15(0.5), 0, 1));
    let (s, o) = debounce::advance(&p, s, inp(2, true, true));
    assert_eq!((o.left_button_val, o.left_presses, o.right_presses), (u1f15(0.75), 1, 1));
    let (s, o) = debounce::advance(&p, s, inp(3, true, false));
    assert_eq!((o.left_presses, o.right_presses), (1, 1));
    let (s, o) = debounce::advance(&p, s, inp(4, false, true));
    assert_eq!((o.left_presses, o.right_presses), (1, 2));
    let (s2, o2) = debounce::advance(&p, s, inp(4, true, true));
    assert_eq!(s2, s);
    assert_eq!((o2.left_presses, o2.right_presses), (1, 2));
}

#[test]
fn debounce_telemetry_line() {
    let o = debounce::Outputs { left_button_val: U1F15::from_bits(24576), left_presses: 3, right_presses: 17 };
    assert_eq!(debounce::telemetry(&o), b"24576\t3\t17\n".to_vec());
}

// ---- vumetre

#[test]
fn vumetre_not_ready_holds_previous() {
    let s = vumetre::State { current_level: U1F15::zero() };
    let (s, o) = vumetre::advance(s, vumetre::Inputs { level: Some(u1f15(0.5)) });
    assert_eq!(o.nb_lebs, 4);
    assert_eq!(o.leds, 0b1111);
    let (s2, o2) = vumetre::advance(s, vumetre::Inputs { level: None });
    assert_eq!(s2, s);
    assert_eq!(o2, o);
}

#[test]
fn vumetre_saturates_at_eight() {
    let s = vumetre::State { current_level: U1F15::zero() };
    let (_, o) = vumetre::advance(s, vumetre::Inputs { level: Some(U1F15::from_bits(u16::MAX)) });
    assert_eq!(o.nb_lebs, 17);
    assert_eq!(o.leds, 0xFF);
    let (_, o) = vumetre::advance(s, vumetre::Inputs { level: Some(u1f15(0.875)) });
    assert_eq!(o.nb_lebs, 7);
    assert_eq!(o.leds, 0x7F);
}

#[test]
fn vumetre_telemetry_line() {
    let o = vumetre::Outputs { adc_value: U1F15::from_bits(22938), nb_lebs: 6, leds: 63 };
    assert_eq!(vumetre::telemetry(&o), b"nb_leds=6\tled_byte=63\tadc_value=22938\n".to_vec());
}

// ---- wiper

fn wiper_params() -> wiper::Parameters {
    wiper::Parameters {
        absolute_speed: U1F15::one(),
        min_position: I3F13::from_bits(-8192),
        min_position_us: 500,
        max_position: I3F13::from_bits(8192),
        max_position_us: 2500,
        pwm_period_us: 20000,
    }
}

#[test]
fn wiper_moves_with_button() {
    let p = wiper::Parameters { min_position: I3F13::from_bits(-8192), ..wiper_params() };
    let s = wiper::State { position: I3F13::from_bits(0), ts: 1000 };
    let (s1, o) = wiper::update_state(&p, s, wiper::Inputs { ms: 1100, button_pressed: true });
    assert_eq!(s1, wiper::State { position: I3F13::from_bits(819), ts: 1100 });
    assert_eq!(o, wiper::Outputs { position: I3F13::from_bits(819), button: true });
    let (s2, _) = wiper::update_state(&p, s1, wiper::Inputs { ms: 1150, button_pressed: false });
    assert_eq!(s2.position, I3F13::from_bits(410));
}

#[test]
fn wiper_clamped_however_long_held() {
    let p = wiper_params();
    let mut s = wiper::initial_state(&p);
    assert_eq!(s.position, I3F13::from_bits(-8192));
    for ms in [10_000u32, 20_000, 30_000, 40_000] {
        let (n, _) = wiper::update_state(&p, s, wiper::Inputs { ms, button_pressed: true });
        s = n;
        assert!(s.position.to_bits() >= -8192 && s.position.to_bits() <= 8192);
    }
    assert_eq!(s.position, I3F13::from_bits(8192));
    let (s, _) = wiper::update_state(&p, s, wiper::Inputs { ms: 70_000, button_pressed: false });
    assert_eq!(s.position, I3F13::from_bits(-8192));
}

#[test]
fn wiper_zero_delay_keeps_state() {
    let p = wiper_params();
    let s = wiper::State { position: I3F13::from_bits(1234), ts: 77 };
    let (s2, _) = wiper::update_state(&p, s, wiper::Inputs { ms: 77, button_pressed: true });
    assert_eq!(s2, s);
}

#[test]
fn wiper_short_gap_across_clock_wrap() {
    let p = wiper_params();
    let s = wiper::State { position: I3F13::from_bits(0), ts: u32::MAX - 49 };
    let (s2, _) = wiper::update_state(&p, s, wiper::Inputs { ms: 50, button_pressed: true });
    assert_eq!(s2.position, I3F13::from_bits(819));
}

#[test]
fn wiper_servo_command_and_telemetry() {
    let p = wiper_params();
    let c = wiper::servo_command(&p, I3F13::from_bits(0), 40000);
    assert_eq!(c, wiper::ServoCommand { duty: 3000, duty_us: 1500, position_range: 16384, duty_range_us: 2000, t: 8192 });
    let low = wiper::servo_command(&p, I3F13::from_bits(-8192), 40000);
    assert_eq!((low.duty_us, low.duty), (500, 1000));
    let high = wiper::servo_command(&p, I3F13::from_bits(8192), 40000);
    assert_eq!((high.duty_us, high.duty), (2500, 5000));
    let mut last = 0;
    for pos in (-8192i16..=8192).step_by(97) {
        let d = wiper::servo_command(&p, I3F13::from_bits(pos), 40000).duty;
        assert!(d >= last);
        last = d;
    }
    assert_eq!(
        wiper::telemetry(true, 40000, &c),
        b"button=true\tmax_duty=40000\tduty=3000\tposition_range=16384\tduty_range_us=2000\tt=8192\tduty_us=1500\n"
            .to_vec()
    );
    assert!(wiper::telemetry(false, 1, &low).starts_with(b"button=false\tmax_duty=1\t"));
}

// ---- timer solver

#[test]
fn timer_params_edge_cases() {
    let clock = U24F8::from_bits(fixed::types::U24F8::lit("16_000_000").to_bits());
    let f = |v: &str| U24F8::from_bits(fixed::types::U24F8::lit(v).to_bits());
    // Too fast for the clock: reload value zero.
    assert_eq!(compute_timer_params(clock, f("10_000_000"), f("0")), None);
    // Too slow even with the largest prescaler.
    assert_eq!(compute_timer_params(clock, f("0.1"), f("1")), None);
    // Exactly 8 MHz: reload 1, no remainder.
    assert_eq!(compute_timer_params(clock, f("8_000_000"), f("0")), Some(PreciseTimerParams { icr1: 1, prescaler: 1 }));
}

// ---- decimal rendering

#[test]
fn decimal_rendering() {
    let mut out = Vec::new();
    push_decimal(&mut out, 0);
    push_str(&mut out, " ");
    push_decimal(&mut out, u32::MAX);
    push_str(&mut out, " ");
    push_decimal(&mut out, 10);
    assert_eq!(out, b"0 4294967295 10".to_vec());
}

// ---- millisecond counter

#[test]
fn millis_tick_adds_eight_and_wraps() {
    assert_eq!(MILLIS_INCREMENT, 8);
    assert_eq!(next_millis(0), 8);
    assert_eq!(next_millis(1000), 1008);
    assert_eq!(next_millis(u32::MAX - 3), 4);
}

#[test]
fn led_bits() {
    assert!(led_on(0b1000_0001, 0));
    assert!(led_on(0b1000_0001, 7));
    assert!(!led_on(0b1000_0001, 3));
}

#[test]
fn q1_15_conversions() {
    assert_eq!(U1F15::from_bool(true), U1F15::one());
    assert_eq!(U1F15::from_bool(false), U1F15::zero());
    assert_eq!(I3F13::from_u1f15(U1F15::one()).to_bits(), 8192);
    assert_eq!(I3F13::from_u1f15(U1F15::from_bits(u16::MAX)).to_bits(), 16383);
}

#[test]
fn vumetre_level_from_adc() {
    assert_eq!(vumetre::level_from_adc(0), U1F15::zero());
    assert_eq!(vumetre::level_from_adc(1023), U1F15::one());
    assert_eq!(vumetre::level_from_adc(512).to_bits(), 16400);
}

#[test]
fn dice_without_blinks_ignores_durations() {
    let p = dice::Parameters { nb_blinks: 0, first_blink_duration_ms: 400, last_blink_duration_ms: 100 };
    let roll = |v| DiceRoll::from_int_modulo(v);
    let s = dice::update_state(
        &p,
        dice::State::ShowingResult(roll(1)),
        dice::Inputs { ms: 9, button_pressed: true, roll: roll(5) },
    );
    assert_eq!(s, dice::State::ShowingResult(roll(5)));
}

#[test]
fn wiper_duty_never_exceeds_maximum() {
    let p = wiper::Parameters {
        absolute_speed: U1F15::one(),
        min_position: I3F13::from_bits(0),
        min_position_us: 0,
        max_position: I3F13::from_bits(2),
        max_position_us: 2,
        pwm_period_us: 2,
    };
    let d1 = wiper::servo_command(&p, I3F13::from_bits(1), u16::MAX).duty;
    let d2 = wiper::servo_command(&p, I3F13::from_bits(2), u16::MAX).duty;
    assert_eq!((d1, d2), (32767, u16::MAX));
}
