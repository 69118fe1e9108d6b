//! Single-precision numbers, held as their IEEE 754 bits.
//!
//! Comparing such numbers and telling them apart is arithmetic on the bits; computing with them
//! is left to callers.

use vstd::arithmetic::power2::{lemma2_to64, pow2};
use vstd::prelude::*;

verus! {

/// A single-precision number, as the bits that encode it.
#[derive(Clone, Copy, Debug)]
pub struct Scalar {
    /// The IEEE 754 encoding: sign, exponent, fraction.
    pub bits: u32,
}

impl Scalar {
    /// The encoding without its sign.
    pub open spec fn magnitude(self) -> int {
        self.bits as int % 0x8000_0000
    }

    /// Whether the sign bit is set.
    pub open spec fn sign_set(self) -> bool {
        self.bits >= 0x8000_0000
    }

    /// Whether no number is encoded.
    pub open spec fn nan(self) -> bool {
        self.magnitude() > 0x7f80_0000
    }

    /// A number that orders as the encoded values do, infinities included.
    pub open spec fn rank(self) -> int {
        if self.sign_set() {
            -self.magnitude()
        } else {
            self.magnitude()
        }
    }

    /// Whether two encodings are equal as numbers: the two zeros are, and no NaN equals
    /// anything.
    pub open spec fn equals(self, other: Scalar) -> bool {
        !self.nan() && !other.nan() && self.rank() == other.rank()
    }

    /// Whether the value is neither infinite nor NaN.
    pub open spec fn finite(self) -> bool {
        self.magnitude() < 0x7f80_0000
    }

    /// Whether the value lies between zero and one, both included.
    pub open spec fn in_unit_interval(self) -> bool {
        0 <= self.rank() <= 0x3f80_0000
    }

    /// Whether the value is greater than zero.
    pub open spec fn positive(self) -> bool {
        !self.nan() && self.rank() > 0
    }

    /// Whether the value is zero or greater.
    pub open spec fn at_least_zero(self) -> bool {
        !self.nan() && self.rank() >= 0
    }

    /// The value with the opposite sign.
    pub open spec fn negated(self) -> Scalar {
        Scalar {
            bits: if self.sign_set() {
                (self.bits - 0x8000_0000) as u32
            } else {
                (self.bits + 0x8000_0000) as u32
            },
        }
    }

    /// Half of the value, rounded to the nearest encoding and on a tie to an even one.
    ///
    /// An exponent above the two lowest drops by one. Below that the magnitude counts units of
    /// the smallest number, and is halved itself. Infinities and NaN stay.
    pub open spec fn halved(self) -> Scalar {
        let magnitude = self.magnitude();
        let sign = self.bits - magnitude;
        Scalar {
            bits: (sign + if magnitude >= 0x7f80_0000 {
                magnitude
            } else if magnitude >= 0x0100_0000 {
                magnitude - 0x0080_0000
            } else if magnitude % 4 == 3 {
                magnitude / 2 + 1
            } else {
                magnitude / 2
            }) as u32,
        }
    }

    /// The fraction of a number that is not below the smallest normal one, as a count of units of
    /// its last place.
    pub open spec fn significand(self) -> nat {
        (self.magnitude() % 0x80_0000 + 0x80_0000) as nat
    }

    /// The value's whole part, at least zero and at most 255. No number counts as zero.
    pub open spec fn byte(self) -> int {
        if self.nan() || self.rank() < 0x3f80_0000 {
            0
        } else if self.rank() >= 0x437f_0000 {
            255
        } else {
            // The last place of a number from one on counts for two to the exponent less 150.
            self.significand() as int / pow2((150 - self.magnitude() / 0x80_0000) as nat) as int
        }
    }

    /// The encoding that stands for all encodings of an equal value.
    pub open spec fn canonical(self) -> u32 {
        if self.magnitude() == 0 {
            0
        } else {
            self.bits
        }
    }

    /// The number zero.
    pub fn zero() -> (zero: Scalar)
        ensures
            zero.bits == 0,
    {
        Scalar { bits: 0 }
    }

    /// Whether the value is neither infinite nor NaN.
    pub fn is_finite(self) -> (finite: bool)
        ensures
            finite == self.finite(),
    {
        self.bits % 0x8000_0000 < 0x7f80_0000
    }

    /// Whether no number is encoded.
    pub fn is_nan(self) -> (nan: bool)
        ensures
            nan == self.nan(),
    {
        self.bits % 0x8000_0000 > 0x7f80_0000
    }

    /// Whether the value is greater than zero.
    pub fn is_positive(self) -> (positive: bool)
        ensures
            positive == self.positive(),
    {
        0 < self.bits && self.bits <= 0x7f80_0000
    }

    /// Whether the value is zero or greater.
    pub fn is_at_least_zero(self) -> (holds: bool)
        ensures
            holds == self.at_least_zero(),
    {
        self.bits <= 0x7f80_0000 || self.bits == 0x8000_0000
    }

    /// Whether the value is finite and lies between zero and one, both included.
    pub fn is_in_unit_interval(self) -> (holds: bool)
        ensures
            holds == (self.finite() && self.in_unit_interval()),
    {
        self.bits <= 0x3f80_0000 || self.bits == 0x8000_0000
    }

    /// The value with the opposite sign.
    pub fn negate(self) -> (negated: Scalar)
        ensures
            negated == self.negated(),
    {
        if self.bits >= 0x8000_0000 {
            Scalar { bits: self.bits - 0x8000_0000 }
        } else {
            Scalar { bits: self.bits + 0x8000_0000 }
        }
    }

    /// Half of the value.
    pub fn halve(self) -> (halved: Scalar)
        ensures
            halved == self.halved(),
    {
        let magnitude: u32 = self.bits % 0x8000_0000;
        let sign: u32 = self.bits - magnitude;
        if magnitude >= 0x7f80_0000 {
            self
        } else if magnitude >= 0x0100_0000 {
            Scalar { bits: self.bits - 0x0080_0000 }
        } else if magnitude % 4 == 3 {
            Scalar { bits: sign + magnitude / 2 + 1 }
        } else {
            Scalar { bits: sign + magnitude / 2 }
        }
    }

    /// Whether the value is not greater than another.
    pub fn is_at_most(self, other: Scalar) -> (holds: bool)
        ensures
            holds == (!self.nan() && !other.nan() && self.rank() <= other.rank()),
    {
        if self.is_nan() || other.is_nan() {
            return false;
        }
        let left: i64 = self.signed_rank();
        let right: i64 = other.signed_rank();
        left <= right
    }

    /// The value's whole part, at least zero and at most 255.
    pub fn to_byte(self) -> (byte: u8)
        ensures
            byte == self.byte(),
    {
        if self.bits < 0x3f80_0000 || self.bits > 0x7f80_0000 {
            return 0;
        }
        if self.bits >= 0x437f_0000 {
            return 255;
        }
        let significand: u32 = self.bits % 0x80_0000 + 0x80_0000;
        let exponent: u32 = self.bits / 0x80_0000;
        proof {
            lemma2_to64();
        }
        let unit: u32 = if exponent == 127 {
            0x80_0000
        } else if exponent == 128 {
            0x40_0000
        } else if exponent == 129 {
            0x20_0000
        } else if exponent == 130 {
            0x10_0000
        } else if exponent == 131 {
            0x8_0000
        } else if exponent == 132 {
            0x4_0000
        } else if exponent == 133 {
            0x2_0000
        } else {
            0x1_0000
        };
        assert(unit == pow2((150 - exponent) as nat));
        assert(significand / unit < 0x100) by (nonlinear_arith)
            requires
                significand < 0x100_0000,
                unit >= 0x1_0000,
        ;
        (significand / unit) as u8
    }

    /// The number by which values are ordered.
    fn signed_rank(self) -> (rank: i64)
        ensures
            rank == self.rank(),
    {
        let magnitude: i64 = (self.bits % 0x8000_0000) as i64;
        if self.bits >= 0x8000_0000 {
            -magnitude
        } else {
            magnitude
        }
    }

    /// The encoding that a hash uses: both zeros give the same one.
    pub fn canonical_bits(self) -> (bits: u32)
        ensures
            bits == self.canonical(),
    {
        if self.bits % 0x8000_0000 == 0 {
            0
        } else {
            self.bits
        }
    }
}

impl PartialEq for Scalar {
    fn eq(&self, other: &Self) -> (equal: bool) {
        if self.bits % 0x8000_0000 > 0x7f80_0000 || other.bits % 0x8000_0000 > 0x7f80_0000 {
            return false;
        }
        self.bits == other.bits || (self.bits % 0x8000_0000 == 0 && other.bits % 0x8000_0000 == 0)
    }
}

impl vstd::std_specs::cmp::PartialEqSpecImpl for Scalar {
    open spec fn obeys_eq_spec() -> bool {
        true
    }

    open spec fn eq_spec(&self, other: &Self) -> bool {
        self.equals(*other)
    }
}

/// Single-precision arithmetic, which the host supplies.
pub trait Arithmetic {
    /// The number nearest to an integer.
    fn from_integer(&self, value: u32) -> Scalar;

    /// The sum of two numbers.
    fn sum(&self, left: Scalar, right: Scalar) -> Scalar;

    /// The first number less the second.
    fn difference(&self, left: Scalar, right: Scalar) -> Scalar;

    /// The product of two numbers.
    fn product(&self, left: Scalar, right: Scalar) -> Scalar;

    /// The first number over the second.
    fn quotient(&self, left: Scalar, right: Scalar) -> Scalar;
}

/// Arithmetic as functions of its operands.
pub struct Computation {
    /// The number nearest to an integer.
    pub from_integer: spec_fn(u32) -> Scalar,
    /// The sum of two numbers.
    pub sum: spec_fn(Scalar, Scalar) -> Scalar,
    /// The first number less the second.
    pub difference: spec_fn(Scalar, Scalar) -> Scalar,
    /// The product of two numbers.
    pub product: spec_fn(Scalar, Scalar) -> Scalar,
    /// The first number over the second.
    pub quotient: spec_fn(Scalar, Scalar) -> Scalar,
}

/// Whether a host computes by functions.
pub open spec fn computes<A: Arithmetic>(arithmetic: &A, by: Computation) -> bool {
    &&& forall|value: u32, result: Scalar| #[trigger]
        call_ensures(A::from_integer, (arithmetic, value), result) ==> result == (by.from_integer)(
            value,
        )
    &&& forall|left: Scalar, right: Scalar, result: Scalar| #[trigger]
        call_ensures(A::sum, (arithmetic, left, right), result) ==> result == (by.sum)(left, right)
    &&& forall|left: Scalar, right: Scalar, result: Scalar| #[trigger]
        call_ensures(A::difference, (arithmetic, left, right), result) ==> result == (
        by.difference)(left, right)
    &&& forall|left: Scalar, right: Scalar, result: Scalar| #[trigger]
        call_ensures(A::product, (arithmetic, left, right), result) ==> result == (by.product)(
            left,
            right,
        )
    &&& forall|left: Scalar, right: Scalar, result: Scalar| #[trigger]
        call_ensures(A::quotient, (arithmetic, left, right), result) ==> result == (by.quotient)(
            left,
            right,
        )
}

/// Equal numbers have one canonical encoding.
pub proof fn law_equal_scalars_have_one_encoding(left: Scalar, right: Scalar)
    requires
        left.equals(right),
    ensures
        left.canonical() == right.canonical(),
{
}

/// Two numbers with one canonical encoding are equal, unless they are NaN.
pub proof fn law_one_encoding_means_equal(left: Scalar, right: Scalar)
    requires
        left.canonical() == right.canonical(),
        !left.nan(),
    ensures
        left.equals(right),
{
}

} // verus!
