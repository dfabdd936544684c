//! Exponential moving average over irregular sample times, in Q1.15.
//!
//! The weight of the previous average decays as `(1 - lambda)^dt`, where
//! `dt` is the number of milliseconds since the previous sample; the window
//! is about `1 / lambda` milliseconds long.
use crate::chrono::ms_sub;
use crate::fixed_point::{mul_raw, UnsignedFixed, U1F15, U1F15_ONE};
use vstd::prelude::*;

verus! {

/// Raw result of exponentiation by squaring, with every product truncated:
/// `acc * p^q` where `p` is squared at each halving of `q`, the last
/// squaring being skipped.
pub open spec fn pow_steps(p: nat, q: nat, acc: nat, one: nat) -> nat
    decreases q,
{
    if q == 0 {
        acc
    } else {
        let acc2 = if q % 2 == 1 {
            mul_raw(acc, p, one)
        } else {
            acc
        };
        let p2 = if q > 1 {
            mul_raw(p, p, one)
        } else {
            p
        };
        pow_steps(p2, q / 2, acc2, one)
    }
}

/// Every product computed by `pow_steps` is below `limit`.
pub open spec fn pow_fits(p: nat, q: nat, acc: nat, one: nat, limit: nat) -> bool
    decreases q,
{
    if q == 0 {
        true
    } else {
        let acc2 = if q % 2 == 1 {
            mul_raw(acc, p, one)
        } else {
            acc
        };
        let p2 = if q > 1 {
            mul_raw(p, p, one)
        } else {
            p
        };
        &&& acc2 < limit
        &&& p2 < limit
        &&& pow_fits(p2, q / 2, acc2, one, limit)
    }
}

/// Fixed-point integer power `one * a^b`, by repeated squaring.
pub fn pow_int<F: UnsignedFixed>(a: F, b: u32, one: F) -> (r: F)
    requires
        F::one_raw() > 0,
        pow_fits(a.raw(), b as nat, one.raw(), F::one_raw(), F::raw_limit()),
    ensures
        r.raw() == pow_steps(a.raw(), b as nat, one.raw(), F::one_raw()),
{
    let mut p = a;
    let mut q = b;
    let mut acc = one;
    while q != 0
        invariant
            F::one_raw() > 0,
            pow_fits(p.raw(), q as nat, acc.raw(), F::one_raw(), F::raw_limit()),
            pow_steps(p.raw(), q as nat, acc.raw(), F::one_raw()) == pow_steps(
                a.raw(),
                b as nat,
                one.raw(),
                F::one_raw(),
            ),
        decreases q,
    {
        if q % 2 == 1 {
            acc = acc.mul_trunc(p);
        }
        // The last square would not be used, and may not be representable.
        if q > 1 {
            p = p.mul_trunc(p);
        }
        q = q / 2;
    }
    acc
}

/// The truncated product of two values no greater than one is no greater
/// than one.
pub proof fn lemma_mul_raw_at_most_one(x: nat, y: nat, one: nat)
    requires
        one > 0,
        x <= one,
        y <= one,
    ensures
        mul_raw(x, y, one) <= one,
        mul_raw(x, y, one) <= x,
{
    assert(x * y <= one * one) by (nonlinear_arith)
        requires
            x <= one,
            y <= one,
    ;
    assert(x * y <= x * one) by (nonlinear_arith)
        requires
            y <= one,
    ;
    assert((x * y) / one <= (one * one) / one) by (nonlinear_arith)
        requires
            x * y <= one * one,
            one > 0,
    ;
    assert((x * y) / one <= (x * one) / one) by (nonlinear_arith)
        requires
            x * y <= x * one,
            one > 0,
    ;
    assert((one * one) / one == one) by (nonlinear_arith)
        requires
            one > 0,
    ;
    assert((x * one) / one == x) by (nonlinear_arith)
        requires
            one > 0,
    ;
}

/// Powers of a base no greater than one never exceed one, so they are
/// representable wherever one is.
pub proof fn lemma_pow_at_most_one(p: nat, q: nat, acc: nat, one: nat, limit: nat)
    requires
        one > 0,
        one < limit,
        p <= one,
        acc <= one,
    ensures
        pow_fits(p, q, acc, one, limit),
        pow_steps(p, q, acc, one) <= one,
    decreases q,
{
    if q > 0 {
        lemma_mul_raw_at_most_one(acc, p, one);
        lemma_mul_raw_at_most_one(p, p, one);
        let acc2 = if q % 2 == 1 {
            mul_raw(acc, p, one)
        } else {
            acc
        };
        let p2 = if q > 1 {
            mul_raw(p, p, one)
        } else {
            p
        };
        lemma_pow_at_most_one(p2, q / 2, acc2, one, limit);
    }
}

/// Moving average state: the current average and the time it was computed at.
#[derive(Clone, Copy, Debug, PartialEq, Eq, Structural)]
pub struct FixedLowPassState {
    pub current_average: U1F15,
    pub current_ts: u32,
}

/// Fixed configuration of the average.
#[derive(Clone, Copy, Debug, PartialEq, Eq, Structural)]
pub struct FixedLowPassParams {
    /// Between 0 and one; a smaller value averages over a longer time.
    pub lambda: U1F15,
}

impl FixedLowPassParams {
    /// `lambda` is at most one.
    pub open spec fn wf(&self) -> bool {
        self.lambda.bits <= U1F15_ONE
    }
}

/// Raw weight kept by the previous average after `dt` milliseconds:
/// `(1 - lambda)^dt`.
pub open spec fn decay(p: FixedLowPassParams, dt: nat) -> nat {
    pow_steps((U1F15_ONE - p.lambda.bits) as nat, dt, U1F15_ONE as nat, U1F15_ONE as nat)
}

/// Raw weighted mean `k * average + (1 - k) * sample`, truncated once.
pub open spec fn blend(k: nat, average: nat, sample: nat) -> nat {
    ((k * average + (U1F15_ONE - k) * sample) / (U1F15_ONE as int)) as nat
}

impl FixedLowPassState {
    /// The state after taking raw sample `x` at `timestamp`.
    pub open spec fn next(self, p: FixedLowPassParams, x: u16, timestamp: u32) -> FixedLowPassState {
        FixedLowPassState {
            current_average: U1F15 {
                bits: blend(
                    decay(p, ms_sub(timestamp, self.current_ts) as nat),
                    self.current_average.bits as nat,
                    x as nat,
                ) as u16,
            },
            current_ts: timestamp,
        }
    }

    /// Zero average at time zero.
    pub fn new() -> (r: FixedLowPassState)
        ensures
            r.current_average.bits == 0,
            r.current_ts == 0,
    {
        FixedLowPassState { current_ts: 0, current_average: U1F15::zero() }
    }

    /// Takes sample `x` at `timestamp` into the average. The time since the
    /// previous sample wraps, so a clock rollover gives a harmless delta.
    pub fn advance(self, p: &FixedLowPassParams, x: U1F15, timestamp: u32) -> (r: FixedLowPassState)
        requires
            p.wf(),
        ensures
            r.current_average.bits == blend(
                decay(*p, ms_sub(timestamp, self.current_ts) as nat),
                self.current_average.bits as nat,
                x.bits as nat,
            ),
            r.current_ts == timestamp,
            r == self.next(*p, x.bits, timestamp),
    {
        let delta_t = timestamp.wrapping_sub(self.current_ts);
        let base = U1F15::from_bits(U1F15_ONE - p.lambda.bits);
        proof {
            lemma_pow_at_most_one(base.bits as nat, delta_t as nat, U1F15_ONE as nat, U1F15_ONE as nat, 0x1_0000);
        }
        let k = pow_int(base, delta_t, U1F15::one());
        let kw: u32 = k.bits as u32;
        let avg: u32 = self.current_average.bits as u32;
        let xw: u32 = x.bits as u32;
        let rest: u32 = U1F15_ONE as u32 - kw;
        proof {
            lemma_blend_bounds(kw as nat, avg as nat, xw as nat);
        }
        let wide: u32 = kw * avg + rest * xw;
        FixedLowPassState { current_average: U1F15::from_bits((wide / 0x8000) as u16), current_ts: timestamp }
    }

    /// The current average.
    pub fn current_val(&self) -> (r: U1F15)
        ensures
            r == self.current_average,
    {
        self.current_average
    }
}

/// The new average lies between the previous average and the sample, so
/// it stays in [0, 2) whatever the weight.
pub proof fn lemma_blend_bounds(k: nat, average: nat, sample: nat)
    requires
        k <= U1F15_ONE,
        average < 0x1_0000,
        sample < 0x1_0000,
    ensures
        k * average + (U1F15_ONE - k) * sample < 0x8000 * 0x1_0000,
        average <= sample ==> average <= blend(k, average, sample) <= sample,
        sample <= average ==> sample <= blend(k, average, sample) <= average,
        blend(k, average, sample) < 0x1_0000,
{
    let one: int = U1F15_ONE as int;
    let w = k * average + (one - k) * sample;
    assert(average <= sample ==> one * average <= w <= one * sample) by (nonlinear_arith)
        requires
            0 <= k <= one,
            w == k * average + (one - k) * sample,
    ;
    assert(sample <= average ==> one * sample <= w <= one * average) by (nonlinear_arith)
        requires
            0 <= k <= one,
            w == k * average + (one - k) * sample,
    ;
    assert(w < one * 0x1_0000) by (nonlinear_arith)
        requires
            0 <= k <= one,
            one == 0x8000,
            average < 0x1_0000,
            sample < 0x1_0000,
            w == k * average + (one - k) * sample,
    ;
    assert(average <= sample ==> average <= w / one <= sample) by (nonlinear_arith)
        requires
            one > 0,
            average <= sample ==> one * average <= w <= one * sample,
    ;
    assert(sample <= average ==> sample <= w / one <= average) by (nonlinear_arith)
        requires
            one > 0,
            sample <= average ==> one * sample <= w <= one * average,
    ;
}

/// Whatever the delay and `lambda`, the new average lies between the
/// previous average and the sample, so it never leaves [0, 2).
pub proof fn lemma_average_between(s: FixedLowPassState, p: FixedLowPassParams, x: u16, timestamp: u32)
    requires
        p.wf(),
    ensures
        ({
            let a = s.next(p, x, timestamp).current_average.bits;
            let old_average = s.current_average.bits;
            &&& old_average <= x ==> old_average <= a <= x
            &&& x <= old_average ==> x <= a <= old_average
        }),
{
    let dt = ms_sub(timestamp, s.current_ts) as nat;
    lemma_pow_at_most_one(
        (U1F15_ONE - p.lambda.bits) as nat,
        dt,
        U1F15_ONE as nat,
        U1F15_ONE as nat,
        0x1_0000,
    );
    lemma_blend_bounds(decay(p, dt), s.current_average.bits as nat, x as nat);
}

/// A sample taken at the same millisecond as the previous one leaves the
/// state unchanged, whatever its value.
pub proof fn lemma_zero_delay_keeps_state(s: FixedLowPassState, p: FixedLowPassParams, x: u16)
    requires
        p.wf(),
    ensures
        s.next(p, x, s.current_ts) == s,
{
    let average = s.current_average.bits;
    assert(ms_sub(s.current_ts, s.current_ts) == 0);
    assert(decay(p, 0) == U1F15_ONE);
    assert((U1F15_ONE * average + 0 * x) / (U1F15_ONE as int) == average) by (nonlinear_arith);
}

} // verus!
