//! Double-precision numbers, held as their IEEE 754 bits.
//!
//! Comparing such numbers with zero and turning their sign is arithmetic on the bits; computing
//! with them is left to callers.

use crate::scalar::Scalar;
use vstd::prelude::*;

verus! {

/// A double-precision number, as the bits that encode it.
#[derive(Clone, Copy, Debug)]
pub struct Double {
    /// The IEEE 754 encoding: sign, exponent, fraction.
    pub bits: u64,
}

impl Double {
    /// The encoding without its sign.
    pub open spec fn magnitude(self) -> int {
        self.bits as int % 0x8000_0000_0000_0000
    }

    /// Whether the sign bit is set.
    pub open spec fn sign_set(self) -> bool {
        self.bits >= 0x8000_0000_0000_0000
    }

    /// Whether no number is encoded.
    pub open spec fn nan(self) -> bool {
        self.magnitude() > 0x7ff0_0000_0000_0000
    }

    /// Whether the value is zero or less.
    pub open spec fn at_most_zero(self) -> bool {
        !self.nan() && (self.sign_set() || self.magnitude() == 0)
    }

    /// The value with the opposite sign.
    pub open spec fn negated(self) -> Double {
        Double {
            bits: if self.sign_set() {
                (self.bits - 0x8000_0000_0000_0000) as u64
            } else {
                (self.bits + 0x8000_0000_0000_0000) as u64
            },
        }
    }

    /// Whether the value is zero or less.
    pub fn is_at_most_zero(self) -> (holds: bool)
        ensures
            holds == self.at_most_zero(),
    {
        let magnitude: u64 = self.bits % 0x8000_0000_0000_0000;
        magnitude <= 0x7ff0_0000_0000_0000 && (self.bits >= 0x8000_0000_0000_0000 || magnitude == 0)
    }

    /// The value with the opposite sign.
    pub fn negate(self) -> (negated: Double)
        ensures
            negated == self.negated(),
    {
        if self.bits >= 0x8000_0000_0000_0000 {
            Double { bits: self.bits - 0x8000_0000_0000_0000 }
        } else {
            Double { bits: self.bits + 0x8000_0000_0000_0000 }
        }
    }
}

/// Double-precision arithmetic, which the host supplies.
pub trait DoubleArithmetic {
    /// The number that a single-precision number is.
    fn widened(&self, value: Scalar) -> Double;

    /// The number that an integer is.
    fn whole(&self, value: i32) -> Double;

    /// The sum of two numbers.
    fn double_sum(&self, left: Double, right: Double) -> Double;

    /// The first number less the second.
    fn double_difference(&self, left: Double, right: Double) -> Double;

    /// The product of two numbers.
    fn double_product(&self, left: Double, right: Double) -> Double;

    /// The first number over the second.
    fn double_quotient(&self, left: Double, right: Double) -> Double;

    /// The greatest whole number that is not greater.
    fn floor(&self, value: Double) -> Double;

    /// The least whole number that is not less.
    fn ceiling(&self, value: Double) -> Double;

    /// The tangent of an angle in radians.
    fn tangent(&self, radians: Double) -> Double;

    /// The whole part, or the nearest integer that fits.
    fn truncated(&self, value: Double) -> i32;
}

/// Double-precision arithmetic as functions of its operands.
pub struct DoubleComputation {
    /// The number that a single-precision number is.
    pub widened: spec_fn(Scalar) -> Double,
    /// The number that an integer is.
    pub whole: spec_fn(i32) -> Double,
    /// The sum of two numbers.
    pub sum: spec_fn(Double, Double) -> Double,
    /// The first number less the second.
    pub difference: spec_fn(Double, Double) -> Double,
    /// The product of two numbers.
    pub product: spec_fn(Double, Double) -> Double,
    /// The first number over the second.
    pub quotient: spec_fn(Double, Double) -> Double,
    /// The greatest whole number that is not greater.
    pub floor: spec_fn(Double) -> Double,
    /// The least whole number that is not less.
    pub ceiling: spec_fn(Double) -> Double,
    /// The tangent of an angle in radians.
    pub tangent: spec_fn(Double) -> Double,
    /// The whole part, or the nearest integer that fits.
    pub truncated: spec_fn(Double) -> i32,
}

/// Whether a host computes by functions.
pub open spec fn computes_doubles<N: DoubleArithmetic>(numbers: &N, by: DoubleComputation) -> bool {
    &&& forall|value: Scalar, result: Double| #[trigger]
        call_ensures(N::widened, (numbers, value), result) ==> result == (by.widened)(value)
    &&& forall|value: i32, result: Double| #[trigger]
        call_ensures(N::whole, (numbers, value), result) ==> result == (by.whole)(value)
    &&& forall|left: Double, right: Double, result: Double| #[trigger]
        call_ensures(N::double_sum, (numbers, left, right), result) ==> result == (by.sum)(
            left,
            right,
        )
    &&& forall|left: Double, right: Double, result: Double| #[trigger]
        call_ensures(N::double_difference, (numbers, left, right), result) ==> result == (
        by.difference)(left, right)
    &&& forall|left: Double, right: Double, result: Double| #[trigger]
        call_ensures(N::double_product, (numbers, left, right), result) ==> result == (by.product)(
            left,
            right,
        )
    &&& forall|left: Double, right: Double, result: Double| #[trigger]
        call_ensures(N::double_quotient, (numbers, left, right), result) ==> result == (
        by.quotient)(left, right)
    &&& forall|value: Double, result: Double| #[trigger]
        call_ensures(N::floor, (numbers, value), result) ==> result == (by.floor)(value)
    &&& forall|value: Double, result: Double| #[trigger]
        call_ensures(N::ceiling, (numbers, value), result) ==> result == (by.ceiling)(value)
    &&& forall|value: Double, result: Double| #[trigger]
        call_ensures(N::tangent, (numbers, value), result) ==> result == (by.tangent)(value)
    &&& forall|value: Double, result: i32| #[trigger]
        call_ensures(N::truncated, (numbers, value), result) ==> result == (by.truncated)(value)
}

/// Turning the sign twice restores a number.
pub proof fn law_negating_twice_restores(value: Double)
    ensures
        value.negated().negated() == value,
{
}

} // verus!
