//! What holds of every number, told by its encoding.

use crate::double::Double;
use crate::scalar::Scalar;
use vstd::arithmetic::power2::pow2;
use vstd::prelude::*;

verus! {

/// Two numbers are equal exactly if they have one encoding or are both zero, and are numbers.
pub proof fn law_equality_of_scalars(left: Scalar, right: Scalar)
    ensures
        left.equals(right) <==> {
            &&& left.bits == right.bits || (left.bits % 0x8000_0000 == 0 && right.bits % 0x8000_0000
                == 0)
            &&& left.bits % 0x8000_0000 <= 0x7f80_0000
            &&& right.bits % 0x8000_0000 <= 0x7f80_0000
        },
{
}

/// What is told of a number can be read off its encoding: a number is finite unless its exponent
/// is all ones, is none if there is a fraction behind such an exponent, and is negative with the
/// first bit set.
pub proof fn law_kinds_of_scalars(value: Scalar)
    ensures
        value.finite() <==> value.bits / 0x80_0000 % 0x100 != 0xff,
        value.nan() <==> value.bits / 0x80_0000 % 0x100 == 0xff && value.bits % 0x80_0000 != 0,
        value.positive() <==> 0 < value.bits <= 0x7f80_0000,
        value.at_least_zero() <==> value.bits <= 0x7f80_0000 || value.bits == 0x8000_0000,
        value.finite() && value.in_unit_interval() <==> value.bits <= 0x3f80_0000 || value.bits
            == 0x8000_0000,
{
}

/// Numbers are ordered as they are on the line: among positive ones a greater encoding is greater,
/// among negative ones it is less, and a negative one is less than a positive one.
pub proof fn law_order_of_scalars(left: Scalar, right: Scalar)
    ensures
        left.bits < 0x8000_0000 && right.bits < 0x8000_0000 ==> (left.rank() <= right.rank()
            <==> left.bits <= right.bits),
        left.bits >= 0x8000_0000 && right.bits >= 0x8000_0000 ==> (left.rank() <= right.rank()
            <==> left.bits >= right.bits),
        left.bits > 0x8000_0000 && right.bits < 0x8000_0000 ==> left.rank() < right.rank(),
{
}

/// Turning the sign of a number turns the first bit and no other.
pub proof fn law_negation_of_scalars(value: Scalar)
    ensures
        value.negated().bits % 0x8000_0000 == value.bits % 0x8000_0000,
        value.negated().bits != value.bits,
        value.negated().negated() == value,
{
}

/// Half of a number has its sign, and is half as large: its exponent is one less, or its magnitude
/// half, to the nearest even one where it has no half. What is not finite stays.
#[verifier::spinoff_prover]
#[verifier::rlimit(40)]
pub proof fn law_halves_of_scalars(value: Scalar)
    ensures
        value.halved().bits / 0x8000_0000 == value.bits / 0x8000_0000,
        value.bits % 0x8000_0000 >= 0x7f80_0000 ==> value.halved() == value,
        0x0100_0000 <= value.bits % 0x8000_0000 < 0x7f80_0000 ==> value.halved().bits
            + 0x0080_0000 == value.bits,
        value.bits % 0x8000_0000 < 0x0100_0000 ==> -1 <= 2 * (value.halved().bits % 0x8000_0000)
            - value.bits % 0x8000_0000 <= 1,
        value.bits % 0x8000_0000 < 0x0100_0000 && value.bits % 2 == 1 ==> value.halved().bits % 2
            == 0,
{
    let magnitude = value.bits as int % 0x8000_0000;
    let sign = value.bits - magnitude;
    let half = if magnitude >= 0x7f80_0000 {
        magnitude
    } else if magnitude >= 0x0100_0000 {
        magnitude - 0x0080_0000
    } else if magnitude % 4 == 3 {
        magnitude / 2 + 1
    } else {
        magnitude / 2
    };
    assert(sign == 0 || sign == 0x8000_0000);
    assert(0 <= half < 0x8000_0000);
    assert(value.halved().bits == sign + half);
}

/// The whole part of a number from one to 255 is the greatest that its units reach; below one it
/// is zero, and from 255 on it is 255. No number and negative ones have zero.
pub proof fn law_whole_parts_of_scalars(value: Scalar)
    ensures
        value.bits < 0x3f80_0000 || value.bits > 0x7f80_0000 ==> value.byte() == 0,
        0x437f_0000 <= value.bits <= 0x7f80_0000 ==> value.byte() == 255,
        0x3f80_0000 <= value.bits < 0x437f_0000 ==> {
            let unit = pow2((150 - value.bits / 0x80_0000) as nat) as int;
            let units = value.bits % 0x80_0000 + 0x80_0000;
            value.byte() * unit <= units < (value.byte() + 1) * unit
        },
{
    if 0x3f80_0000 <= value.bits < 0x437f_0000 {
        let unit = pow2((150 - value.bits / 0x80_0000) as nat) as int;
        let units = value.bits % 0x80_0000 + 0x80_0000;
        vstd::arithmetic::power2::lemma_pow2_pos((150 - value.bits / 0x80_0000) as nat);
        assert(value.byte() == units / unit);
        assert(units / unit * unit <= units < (units / unit + 1) * unit) by (nonlinear_arith)
            requires
                unit > 0,
                units > 0,
        ;
    }
}

/// The canonical encoding of a number is its own, but for the negative zero.
pub proof fn law_canonical_encodings(value: Scalar)
    ensures
        value.bits != 0x8000_0000 ==> value.canonical() == value.bits,
        value.bits == 0x8000_0000 ==> value.canonical() == 0,
{
}

/// A double-precision number is zero or less exactly if it is a number with the first bit set, or
/// zero. Turning its sign turns the first bit and no other.
pub proof fn law_doubles(value: Double)
    ensures
        value.at_most_zero() <==> value.bits == 0 || 0x8000_0000_0000_0000 <= value.bits
            <= 0xfff0_0000_0000_0000,
        value.negated().bits % 0x8000_0000_0000_0000 == value.bits % 0x8000_0000_0000_0000,
        value.negated().bits != value.bits,
{
}

} // verus!
