//! Single-precision numbers, held by their encoding.
//!
//! The graphics context takes single-precision numbers. This library never
//! computes with them: it stores them, passes them on and writes down a few
//! exact constants. A [`Scalar`] is therefore the 32 bits of the IEEE 754
//! binary32 encoding of a number, and two scalars are equal when their
//! encodings are. Positive and negative zero are different scalars.
//!
//! What number an encoding stands for is said in whole steps: every finite
//! number of the format is a whole multiple of 2^-149, its finest step, and
//! [`Scalar::steps`] is that multiple. The number one is 2^149 steps.

use vstd::prelude::*;
use vstd::arithmetic::power2::{
    lemma2_to64, lemma_pow2_adds, lemma_pow2_pos, lemma_pow2_strictly_increases,
    lemma_pow2_unfold, pow2,
};

verus! {

/// Encoding of `0.0`.
pub const ZERO_BITS: u32 = 0x0000_0000;

/// Encoding of `1.0`.
pub const ONE_BITS: u32 = 0x3F80_0000;

/// Encoding of `-1.0`.
pub const MINUS_ONE_BITS: u32 = 0xBF80_0000;

/// Encoding of the largest finite number.
pub const MAX_FINITE_BITS: u32 = 0x7F7F_FFFF;

/// A single-precision number, given by its IEEE 754 binary32 encoding.
#[derive(Clone, Copy, Debug, PartialEq, Eq, Hash, Structural)]
pub struct Scalar {
    pub bits: u32,
}

impl Scalar {
    /// The sign bit: one for a number below zero and for negative zero.
    pub open spec fn sign(self) -> int {
        self.bits as int / 0x8000_0000
    }

    /// The exponent field, eight bits wide.
    pub open spec fn exponent(self) -> int {
        (self.bits as int / 0x80_0000) % 0x100
    }

    /// The fraction field, twenty-three bits wide.
    pub open spec fn fraction(self) -> int {
        self.bits as int % 0x80_0000
    }

    /// Whether the scalar is a number of finite size: neither an infinity nor
    /// a NaN, which have an exponent field of all ones.
    pub open spec fn finite(self) -> bool {
        self.exponent() < 0xFF
    }

    /// The distance from a number to the next larger one that has the same
    /// exponent field, in steps of 2^-149.
    pub open spec fn spacing(self) -> int {
        if self.exponent() == 0 {
            1
        } else {
            pow2((self.exponent() - 1) as nat) as int
        }
    }

    /// The size of a finite scalar without its sign, in steps of 2^-149.
    pub open spec fn magnitude(self) -> int {
        if self.exponent() == 0 {
            self.fraction()
        } else {
            (0x80_0000 + self.fraction()) * self.spacing()
        }
    }

    /// The number that a finite scalar stands for, in steps of 2^-149.
    pub open spec fn steps(self) -> int {
        if self.sign() == 1 {
            -self.magnitude()
        } else {
            self.magnitude()
        }
    }

    /// Whether the scalar stands for exactly the fraction
    /// `numerator / denominator`.
    pub open spec fn is_fraction(self, numerator: int, denominator: int) -> bool
        recommends
            denominator > 0,
    {
        self.finite() && denominator * self.steps() == numerator * pow2(149)
    }

    /// Whether the scalar stands for the whole number `n`.
    pub open spec fn is_integer(self, n: int) -> bool {
        self.is_fraction(n, 1)
    }

    /// Whether the scalar differs from the fraction `numerator / denominator`
    /// by no more than half its spacing. Of a scalar whose fraction field is
    /// not zero this says that no number of the format is nearer.
    pub open spec fn is_within_half_spacing_of(self, numerator: int, denominator: int) -> bool
        recommends
            denominator > 0,
    {
        let error = denominator * self.steps() - numerator * pow2(149);
        &&& self.finite()
        &&& -denominator * self.spacing() <= 2 * error <= denominator * self.spacing()
    }

    /// The scalar with the given encoding.
    pub open spec fn spec_from_bits(bits: u32) -> Scalar {
        Scalar { bits }
    }

    /// The number `0.0`.
    pub open spec fn spec_zero() -> Scalar {
        Scalar { bits: ZERO_BITS }
    }

    /// The number `1.0`.
    pub open spec fn spec_one() -> Scalar {
        Scalar { bits: ONE_BITS }
    }

    /// Whether the number is above zero and finite.
    pub open spec fn spec_is_positive_finite(self) -> bool {
        self.finite() && self.steps() > 0
    }

    /// The scalar with the given encoding.
    #[verifier::when_used_as_spec(spec_from_bits)]
    pub fn from_bits(bits: u32) -> (scalar: Scalar)
        ensures
            scalar == Scalar::spec_from_bits(bits),
    {
        Scalar { bits }
    }

    /// The encoding of this scalar.
    pub fn to_bits(self) -> (bits: u32)
        ensures
            bits == self.bits,
    {
        self.bits
    }

    /// Whether the number is above zero and finite.
    #[verifier::when_used_as_spec(spec_is_positive_finite)]
    pub fn is_positive_finite(self) -> (positive_finite: bool)
        ensures
            positive_finite == self.spec_is_positive_finite(),
    {
        proof {
            positive_finite_by_encoding(self);
        }
        0 < self.bits && self.bits <= MAX_FINITE_BITS
    }

    /// The number `0.0`.
    #[verifier::when_used_as_spec(spec_zero)]
    pub fn zero() -> (scalar: Scalar)
        ensures
            scalar == Scalar::spec_zero(),
    {
        Scalar { bits: ZERO_BITS }
    }

    /// The number `1.0`.
    #[verifier::when_used_as_spec(spec_one)]
    pub fn one() -> (scalar: Scalar)
        ensures
            scalar == Scalar::spec_one(),
    {
        Scalar { bits: ONE_BITS }
    }
}

/// An encoding is its three fields side by side.
pub proof fn fields_make_up_the_encoding(scalar: Scalar)
    ensures
        0 <= scalar.sign() <= 1,
        0 <= scalar.exponent() < 0x100,
        0 <= scalar.fraction() < 0x80_0000,
        scalar.bits == scalar.sign() * 0x8000_0000 + scalar.exponent() * 0x80_0000
            + scalar.fraction(),
{
}

/// The numbers above zero and of finite size are the encodings from one up to
/// [`MAX_FINITE_BITS`].
pub proof fn positive_finite_by_encoding(scalar: Scalar)
    ensures
        scalar.spec_is_positive_finite() <==> 0 < scalar.bits <= MAX_FINITE_BITS,
{
    fields_make_up_the_encoding(scalar);
    if scalar.exponent() > 0 {
        lemma_pow2_pos((scalar.exponent() - 1) as nat);
        let significand = 0x80_0000 + scalar.fraction();
        let spacing = scalar.spacing();
        assert(significand * spacing > 0) by (nonlinear_arith)
            requires
                significand > 0,
                spacing > 0,
        ;
    }
}

/// Among the numbers above zero and of finite size, the larger number has the
/// larger encoding.
pub proof fn larger_encoding_is_larger_number(a: Scalar, b: Scalar)
    requires
        a.spec_is_positive_finite(),
        b.spec_is_positive_finite(),
    ensures
        a.bits <= b.bits <==> a.steps() <= b.steps(),
{
    positive_finite_by_encoding(a);
    positive_finite_by_encoding(b);
    fields_make_up_the_encoding(a);
    fields_make_up_the_encoding(b);
    if a.exponent() == b.exponent() {
        if a.exponent() > 0 {
            let spacing = a.spacing();
            let fa = a.fraction();
            let fb = b.fraction();
            lemma_pow2_pos((a.exponent() - 1) as nat);
            assert(fa <= fb <==> (0x80_0000 + fa) * spacing <= (0x80_0000 + fb) * spacing)
                by (nonlinear_arith)
                requires
                    spacing > 0,
            ;
        }
    } else if a.exponent() < b.exponent() {
        lemma_smaller_exponent_is_smaller_number(a, b);
    } else {
        lemma_smaller_exponent_is_smaller_number(b, a);
    }
}

/// The zero, one and minus one of this module stand for those whole numbers.
pub proof fn constants_are_whole_numbers()
    ensures
        Scalar::spec_zero().is_integer(0),
        Scalar::spec_one().is_integer(1),
        (Scalar { bits: MINUS_ONE_BITS }).is_integer(-1),
{
    let one = Scalar::spec_one();
    let minus_one = Scalar { bits: MINUS_ONE_BITS };
    assert(one.exponent() == 127 && one.fraction() == 0 && one.sign() == 0);
    assert(minus_one.exponent() == 127 && minus_one.fraction() == 0 && minus_one.sign() == 1);
    lemma_pow2_adds(23, 126);
    lemma2_to64();
}

/// A number with a nonzero exponent field lies between the least and the
/// greatest that its exponent allows.
proof fn lemma_magnitude_in_its_binade(scalar: Scalar)
    requires
        scalar.exponent() >= 1,
    ensures
        0x80_0000 * scalar.spacing() <= scalar.magnitude() < 0x80_0000 * (2 * scalar.spacing()),
        2 * scalar.spacing() == pow2(scalar.exponent() as nat),
        scalar.spacing() > 0,
{
    fields_make_up_the_encoding(scalar);
    let spacing = scalar.spacing();
    let fraction = scalar.fraction();
    lemma_pow2_pos((scalar.exponent() - 1) as nat);
    lemma_pow2_unfold(scalar.exponent() as nat);
    assert(0x80_0000 * spacing <= (0x80_0000 + fraction) * spacing) by (nonlinear_arith)
        requires
            fraction >= 0,
            spacing > 0,
    ;
    assert((0x80_0000 + fraction) * spacing < 0x80_0000 * (2 * spacing)) by (nonlinear_arith)
        requires
            fraction < 0x80_0000,
            spacing > 0,
    ;
}

/// Of two numbers above zero, the one with the smaller exponent field is the
/// smaller, in encoding and in size.
proof fn lemma_smaller_exponent_is_smaller_number(a: Scalar, b: Scalar)
    requires
        a.spec_is_positive_finite(),
        b.spec_is_positive_finite(),
        a.exponent() < b.exponent(),
    ensures
        a.bits < b.bits,
        a.steps() < b.steps(),
{
    positive_finite_by_encoding(a);
    positive_finite_by_encoding(b);
    fields_make_up_the_encoding(a);
    fields_make_up_the_encoding(b);
    lemma_magnitude_in_its_binade(b);
    lemma2_to64();
    if a.exponent() >= 1 {
        lemma_magnitude_in_its_binade(a);
    }
    if a.exponent() < b.exponent() - 1 {
        lemma_pow2_strictly_increases(a.exponent() as nat, (b.exponent() - 1) as nat);
    }
    let reach = pow2(a.exponent() as nat) as int;
    let spacing = b.spacing();
    assert(reach <= spacing);
    assert(0x80_0000 * reach <= 0x80_0000 * spacing) by (nonlinear_arith)
        requires
            reach <= spacing,
    ;
}

} // verus!
