//! Fixed-point numbers stored as raw integers.
//!
//! A value is `bits / 2^frac` where `frac` is the number of fractional bits
//! of its type. Products drop the bits below the type's precision, as a
//! hardware multiply followed by a right shift does.
use vstd::prelude::*;

verus! {

/// Product of two raw fixed-point values whose representation of one is
/// `one`, truncated to the same precision.
pub open spec fn mul_raw(a: nat, b: nat, one: nat) -> nat
    recommends
        one > 0,
{
    (a * b) / one
}

/// Unsigned fixed-point type with a truncating multiplication.
pub trait UnsignedFixed: Sized + Copy {
    /// The raw integer behind the value.
    spec fn raw(&self) -> nat;

    /// Raw value of the number one.
    spec fn one_raw() -> nat;

    /// One more than the largest raw value.
    spec fn raw_limit() -> nat;

    /// Truncating product; the result must be representable.
    fn mul_trunc(self, rhs: Self) -> (r: Self)
        requires
            mul_raw(self.raw(), rhs.raw(), Self::one_raw()) < Self::raw_limit(),
        ensures
            r.raw() == mul_raw(self.raw(), rhs.raw(), Self::one_raw()),
    ;
}

/// Unsigned Q1.15: one integer bit and fifteen fractional bits, range [0, 2).
#[derive(Clone, Copy, Debug, PartialEq, Eq, Structural)]
pub struct U1F15 {
    pub bits: u16,
}

/// Raw value of one in Q1.15.
pub const U1F15_ONE: u16 = 0x8000;

impl U1F15 {
    /// The value whose raw representation is `bits`.
    pub fn from_bits(bits: u16) -> (r: U1F15)
        ensures
            r.bits == bits,
    {
        U1F15 { bits }
    }

    /// The raw representation.
    pub fn to_bits(self) -> (r: u16)
        ensures
            r == self.bits,
    {
        self.bits
    }

    /// Zero.
    pub fn zero() -> (r: U1F15)
        ensures
            r.bits == 0,
    {
        U1F15 { bits: 0 }
    }

    /// One.
    pub fn one() -> (r: U1F15)
        ensures
            r.bits == U1F15_ONE,
    {
        U1F15 { bits: U1F15_ONE }
    }

    /// Zero for `false` and one for `true`.
    pub fn from_bool(b: bool) -> (r: U1F15)
        ensures
            r.bits == (if b { U1F15_ONE } else { 0u16 }),
    {
        if b {
            U1F15::one()
        } else {
            U1F15::zero()
        }
    }
}

impl UnsignedFixed for U1F15 {
    open spec fn raw(&self) -> nat {
        self.bits as nat
    }

    open spec fn one_raw() -> nat {
        0x8000
    }

    open spec fn raw_limit() -> nat {
        0x1_0000
    }

    fn mul_trunc(self, rhs: U1F15) -> (r: U1F15) {
        let a: u32 = self.bits as u32;
        let b: u32 = rhs.bits as u32;
        assert(a * b < 0x1_0000_0000) by (nonlinear_arith)
            requires
                a < 0x1_0000,
                b < 0x1_0000,
        ;
        let p: u32 = a * b / 0x8000;
        U1F15 { bits: p as u16 }
    }
}

/// Unsigned Q6.26: six integer bits and twenty-six fractional bits, range [0, 64).
#[derive(Clone, Copy, Debug, PartialEq, Eq, Structural)]
pub struct U6F26 {
    pub bits: u32,
}

/// Raw value of one in Q6.26.
pub const U6F26_ONE: u32 = 0x400_0000;

impl U6F26 {
    /// The value whose raw representation is `bits`.
    pub fn from_bits(bits: u32) -> (r: U6F26)
        ensures
            r.bits == bits,
    {
        U6F26 { bits }
    }

    /// The raw representation.
    pub fn to_bits(self) -> (r: u32)
        ensures
            r == self.bits,
    {
        self.bits
    }

    /// One.
    pub fn one() -> (r: U6F26)
        ensures
            r.bits == U6F26_ONE,
    {
        U6F26 { bits: U6F26_ONE }
    }
}

impl UnsignedFixed for U6F26 {
    open spec fn raw(&self) -> nat {
        self.bits as nat
    }

    open spec fn one_raw() -> nat {
        0x400_0000
    }

    open spec fn raw_limit() -> nat {
        0x1_0000_0000
    }

    fn mul_trunc(self, rhs: U6F26) -> (r: U6F26) {
        let a: u64 = self.bits as u64;
        let b: u64 = rhs.bits as u64;
        assert(a * b < 0x1_0000_0000_0000_0000) by (nonlinear_arith)
            requires
                a < 0x1_0000_0000,
                b < 0x1_0000_0000,
        ;
        let p: u64 = a * b / 0x400_0000;
        U6F26 { bits: p as u32 }
    }
}

/// Signed Q3.13: three integer bits (sign included) and thirteen fractional
/// bits, range [-4, 4).
#[derive(Clone, Copy, Debug, PartialEq, Eq, Structural)]
pub struct I3F13 {
    pub bits: i16,
}

impl I3F13 {
    /// The value whose raw representation is `bits`.
    pub fn from_bits(bits: i16) -> (r: I3F13)
        ensures
            r.bits == bits,
    {
        I3F13 { bits }
    }

    /// The raw representation.
    pub fn to_bits(self) -> (r: i16)
        ensures
            r == self.bits,
    {
        self.bits
    }

    /// The Q3.13 value of a Q1.15 value; the two lowest fractional bits are
    /// dropped.
    pub fn from_u1f15(x: U1F15) -> (r: I3F13)
        ensures
            r.bits == x.bits / 4,
    {
        I3F13 { bits: (x.bits / 4) as i16 }
    }
}

/// Unsigned Q24.8: twenty-four integer bits and eight fractional bits, used
/// for clock and frequency values.
#[derive(Clone, Copy, Debug, PartialEq, Eq, Structural)]
pub struct U24F8 {
    pub bits: u32,
}

impl U24F8 {
    /// The value whose raw representation is `bits`.
    pub fn from_bits(bits: u32) -> (r: U24F8)
        ensures
            r.bits == bits,
    {
        U24F8 { bits }
    }

    /// The raw representation.
    pub fn to_bits(self) -> (r: u32)
        ensures
            r == self.bits,
    {
        self.bits
    }
}

} // verus!
