//! Single-precision values as bit patterns, with their order.
use vstd::prelude::*;
use vstd::arithmetic::div_mod::{lemma_basic_div, lemma_div_is_ordered, lemma_div_multiples_vanish, lemma_div_multiples_vanish_quotient};
use vstd::arithmetic::mul::{lemma_mul_inequality, lemma_mul_is_commutative, lemma_mul_strict_inequality};
use vstd::arithmetic::power2::{lemma2_to64, lemma_pow2_adds, lemma_pow2_pos, lemma_pow2_strictly_increases, pow2};
use vstd::bits::lemma_u32_shr_is_div;

verus! {

/// Two to the 23rd: the number of fractions per exponent.
pub const FRACTIONS: u32 = 0x80_0000;

/// Bit pattern of positive infinity.
pub const INFINITY_BITS: u32 = 0x7f80_0000;

/// The sign bit.
pub const SIGN_BIT: u32 = 0x8000_0000;

/// An IEEE-754 binary32 value, held as its 32 bits.
///
/// `==` on scalars compares bits; [`Scalar::same_value`] compares values.
#[derive(Clone, Copy, Debug, PartialEq, Eq, Structural)]
pub struct Scalar {
    pub bits: u32,
}

impl Scalar {
    /// The bits without the sign: biased exponent and fraction.
    pub open spec fn magnitude(self) -> int {
        if self.bits >= SIGN_BIT {
            self.bits - SIGN_BIT
        } else {
            self.bits as int
        }
    }

    /// The sign bit is set (also true of `-0` and of some NaNs).
    pub open spec fn negative(self) -> bool {
        self.bits >= SIGN_BIT
    }

    /// Not a number: exponent all ones, fraction not zero.
    pub open spec fn nan(self) -> bool {
        self.magnitude() > INFINITY_BITS
    }

    /// Zero, subnormal or normal: neither infinite nor NaN.
    pub open spec fn finite(self) -> bool {
        self.magnitude() < INFINITY_BITS
    }

    /// Where the value stands among the binary32 values: strictly monotone in
    /// the value, `0` for both zeros. Meaningless for NaN.
    pub open spec fn key(self) -> int {
        if self.negative() {
            -self.magnitude()
        } else {
            self.magnitude()
        }
    }

    /// IEEE `<`: false whenever an operand is NaN.
    pub open spec fn lt_spec(self, other: Scalar) -> bool {
        !self.nan() && !other.nan() && self.key() < other.key()
    }

    /// IEEE `<=`: false whenever an operand is NaN.
    pub open spec fn le_spec(self, other: Scalar) -> bool {
        !self.nan() && !other.nan() && self.key() <= other.key()
    }

    /// IEEE `==`: false whenever an operand is NaN, true of `+0` and `-0`.
    pub open spec fn same_value_spec(self, other: Scalar) -> bool {
        !self.nan() && !other.nan() && self.key() == other.key()
    }

    /// The smaller operand; the first where neither is smaller; the other one
    /// where one is NaN.
    pub open spec fn min_spec(self, other: Scalar) -> Scalar {
        if self.nan() || other.lt_spec(self) {
            other
        } else {
            self
        }
    }

    /// The larger operand; the first where neither is larger; the other one
    /// where one is NaN.
    pub open spec fn max_spec(self, other: Scalar) -> Scalar {
        if self.nan() || self.lt_spec(other) {
            other
        } else {
            self
        }
    }

    /// The value with its sign bit cleared.
    pub open spec fn abs_spec(self) -> Scalar {
        Scalar { bits: self.magnitude() as u32 }
    }

    pub open spec fn zero_spec() -> Scalar {
        Scalar { bits: 0 }
    }

    pub open spec fn one_spec() -> Scalar {
        Scalar { bits: 0x3f80_0000 }
    }

    pub open spec fn infinity_spec() -> Scalar {
        Scalar { bits: INFINITY_BITS }
    }

    pub open spec fn neg_infinity_spec() -> Scalar {
        Scalar { bits: 0xff80_0000 }
    }

    pub open spec fn epsilon_spec() -> Scalar {
        Scalar { bits: 0x3400_0000 }
    }

    /// Positive zero.
    #[verifier::when_used_as_spec(zero_spec)]
    pub fn zero() -> (s: Scalar)
        ensures
            s == Scalar::zero_spec(),
    {
        Scalar { bits: 0 }
    }

    /// One.
    #[verifier::when_used_as_spec(one_spec)]
    pub fn one() -> (s: Scalar)
        ensures
            s == Scalar::one_spec(),
    {
        Scalar { bits: 0x3f80_0000 }
    }

    /// Positive infinity.
    #[verifier::when_used_as_spec(infinity_spec)]
    pub fn infinity() -> (s: Scalar)
        ensures
            s == Scalar::infinity_spec(),
    {
        Scalar { bits: INFINITY_BITS }
    }

    /// Negative infinity.
    #[verifier::when_used_as_spec(neg_infinity_spec)]
    pub fn neg_infinity() -> (s: Scalar)
        ensures
            s == Scalar::neg_infinity_spec(),
    {
        Scalar { bits: 0xff80_0000 }
    }

    /// The gap between one and the next larger value, `2^-23`.
    #[verifier::when_used_as_spec(epsilon_spec)]
    pub fn epsilon() -> (s: Scalar)
        ensures
            s == Scalar::epsilon_spec(),
    {
        Scalar { bits: 0x3400_0000 }
    }

    pub fn from_bits(bits: u32) -> (s: Scalar)
        ensures
            s.bits == bits,
    {
        Scalar { bits }
    }

    pub fn to_bits(self) -> (bits: u32)
        ensures
            bits == self.bits,
    {
        self.bits
    }

    fn magnitude_bits(self) -> (m: u32)
        ensures
            m == self.magnitude(),
            m < SIGN_BIT,
    {
        if self.bits >= SIGN_BIT {
            self.bits - SIGN_BIT
        } else {
            self.bits
        }
    }

    fn rank(self) -> (k: i64)
        ensures
            k == self.key(),
    {
        let m: i64 = self.magnitude_bits() as i64;
        if self.bits >= SIGN_BIT {
            -m
        } else {
            m
        }
    }

    pub fn is_nan(self) -> (r: bool)
        ensures
            r == self.nan(),
    {
        self.magnitude_bits() > INFINITY_BITS
    }

    pub fn is_finite(self) -> (r: bool)
        ensures
            r == self.finite(),
    {
        self.magnitude_bits() < INFINITY_BITS
    }

    /// `+0` or `-0`.
    pub fn is_zero(self) -> (r: bool)
        ensures
            r == (self.magnitude() == 0),
            r == self.same_value_spec(Scalar::zero()),
    {
        self.magnitude_bits() == 0
    }

    pub fn lt(self, other: Scalar) -> (r: bool)
        ensures
            r == self.lt_spec(other),
    {
        !self.is_nan() && !other.is_nan() && self.rank() < other.rank()
    }

    pub fn le(self, other: Scalar) -> (r: bool)
        ensures
            r == self.le_spec(other),
    {
        !self.is_nan() && !other.is_nan() && self.rank() <= other.rank()
    }

    pub fn gt(self, other: Scalar) -> (r: bool)
        ensures
            r == other.lt_spec(self),
    {
        other.lt(self)
    }

    pub fn ge(self, other: Scalar) -> (r: bool)
        ensures
            r == other.le_spec(self),
    {
        other.le(self)
    }

    pub fn same_value(self, other: Scalar) -> (r: bool)
        ensures
            r == self.same_value_spec(other),
    {
        !self.is_nan() && !other.is_nan() && self.rank() == other.rank()
    }

    pub fn min(self, other: Scalar) -> (m: Scalar)
        ensures
            m == self.min_spec(other),
    {
        if self.is_nan() || other.lt(self) {
            other
        } else {
            self
        }
    }

    pub fn max(self, other: Scalar) -> (m: Scalar)
        ensures
            m == self.max_spec(other),
    {
        if self.is_nan() || self.lt(other) {
            other
        } else {
            self
        }
    }

    pub fn abs(self) -> (a: Scalar)
        ensures
            a == self.abs_spec(),
            !a.negative(),
            a.magnitude() == self.magnitude(),
    {
        Scalar { bits: self.magnitude_bits() }
    }
}

impl Scalar {
    /// The biased exponent: the eight bits below the sign.
    pub open spec fn exponent(self) -> int {
        self.magnitude() / (FRACTIONS as int)
    }

    /// The fraction: the lowest 23 bits.
    pub open spec fn fraction(self) -> int {
        self.magnitude() % (FRACTIONS as int)
    }

    /// The significand: the fraction, and above it the hidden one unless
    /// the value is zero or subnormal.
    pub open spec fn significand(self) -> int {
        if self.exponent() == 0 {
            self.fraction()
        } else {
            FRACTIONS + self.fraction()
        }
    }

    /// By which power of two the significand is scaled, counted from the
    /// smallest: `0` for subnormals and for the first normal exponent.
    pub open spec fn scale(self) -> nat {
        if self.exponent() == 0 {
            0
        } else {
            (self.exponent() - 1) as nat
        }
    }

    /// The absolute value of a finite scalar in units of `2^-149`, the
    /// smallest positive value: every finite value is a whole number of
    /// these.
    pub open spec fn abs_units(self) -> int {
        self.significand() * pow2(self.scale())
    }

    /// The value of a finite scalar in units of `2^-149`.
    pub open spec fn units(self) -> int {
        if self.negative() {
            -self.abs_units()
        } else {
            self.abs_units()
        }
    }

    /// The value times 255, rounded down to a whole number and held to
    /// `0 ..= 255`. The product is the exact one: it is not rounded to
    /// single precision before it is rounded down. NaN gives `0`.
    pub open spec fn quantize_spec(self) -> u8 {
        if self.nan() || self.negative() {
            0
        } else if !self.finite() {
            255
        } else if self.units() * 255 / (pow2(149) as int) >= 255 {
            255
        } else {
            (self.units() * 255 / (pow2(149) as int)) as u8
        }
    }

    /// The byte of a linear colour channel: `floor(c * 255)`, but `0` for
    /// anything below zero and for NaN, and `255` for anything from one on.
    pub fn quantize(self) -> (b: u8)
        ensures
            b == self.quantize_spec(),
    {
        if self.bits >= SIGN_BIT || self.bits > INFINITY_BITS {
            return 0;
        }
        if self.bits == INFINITY_BITS {
            return 255;
        }
        let exponent: u32 = self.bits / FRACTIONS;
        if exponent >= 127 {
            proof {
                lemma_one_or_more(self);
            }
            return 255;
        }
        if exponent < 119 {
            proof {
                lemma_too_dark(self);
            }
            return 0;
        }
        let significand: u32 = FRACTIONS + self.bits % FRACTIONS;
        let product: u32 = significand * 255;
        let shift: u32 = 150 - exponent;
        let whole: u32 = product >> shift;
        proof {
            lemma_scaled_whole_part(self);
            lemma_u32_shr_is_div(product, shift);
        }
        whole as u8
    }
}

/// Zero, of either sign, gives the byte zero.
pub proof fn lemma_zero_quantizes_to_zero(s: Scalar)
    requires
        s.magnitude() == 0,
    ensures
        s.quantize_spec() == 0,
{
    if !s.negative() {
        lemma_too_dark(s);
    }
}

/// A finite value from one on gives at least 255 when it is multiplied by
/// 255.
proof fn lemma_one_or_more(s: Scalar)
    requires
        !s.negative(),
        s.finite(),
        s.exponent() >= 127,
    ensures
        s.units() * 255 / (pow2(149) as int) >= 255,
{
    lemma2_to64();
    let scale = s.scale();
    lemma_pow2_pos(149);
    if scale > 126 {
        lemma_pow2_strictly_increases(126, scale);
    }
    lemma_pow2_adds(23, 126);
    assert(s.significand() >= pow2(23));
    lemma_mul_inequality(pow2(23) as int, s.significand(), pow2(scale) as int);
    lemma_mul_inequality(pow2(126) as int, pow2(scale) as int, pow2(23) as int);
    lemma_mul_is_commutative(pow2(scale) as int, pow2(23) as int);
    lemma_mul_is_commutative(pow2(126) as int, pow2(23) as int);
    assert(s.units() >= pow2(149));
    lemma_div_is_ordered((pow2(149) * 255) as int, s.units() * 255, pow2(149) as int);
    lemma_div_multiples_vanish(255, pow2(149) as int);
}

/// A finite value with an exponent of more than eight below that of one
/// stays below one when it is multiplied by 255.
proof fn lemma_too_dark(s: Scalar)
    requires
        !s.negative(),
        s.finite(),
        s.exponent() < 119,
    ensures
        s.units() * 255 / (pow2(149) as int) == 0,
{
    lemma2_to64();
    let scale = s.scale();
    lemma_pow2_pos(scale);
    if scale < 117 {
        lemma_pow2_strictly_increases(scale, 117);
    }
    lemma_pow2_adds(24, 117);
    lemma_pow2_adds(8, 141);
    assert(s.significand() < pow2(24));
    assert(s.significand() * pow2(scale) >= 0) by (nonlinear_arith)
        requires
            s.significand() >= 0,
            pow2(scale) > 0,
    ;
    lemma_mul_strict_inequality(s.significand(), pow2(24) as int, pow2(scale) as int);
    lemma_mul_inequality(pow2(scale) as int, pow2(117) as int, pow2(24) as int);
    lemma_mul_is_commutative(pow2(scale) as int, pow2(24) as int);
    lemma_mul_is_commutative(pow2(117) as int, pow2(24) as int);
    assert(s.units() < pow2(141));
    assert(s.units() * 255 < pow2(149));
    lemma_basic_div(s.units() * 255, pow2(149) as int);
}

/// Below one, the whole part of 255 times a value is 255 times its
/// significand without the bits that stand behind the binary point.
proof fn lemma_scaled_whole_part(s: Scalar)
    requires
        !s.negative(),
        s.finite(),
        119 <= s.exponent() < 127,
    ensures
        s.units() * 255 / (pow2(149) as int) == s.significand() * 255 / (pow2((150 - s.exponent()) as nat) as int),
        s.significand() * 255 / (pow2((150 - s.exponent()) as nat) as int) < 255,
        s.significand() * 255 <= u32::MAX,
{
    lemma2_to64();
    let scale = s.scale();
    let behind = (150 - s.exponent()) as nat;
    let scaled = s.significand() * 255;
    lemma_pow2_pos(scale);
    lemma_pow2_pos(behind);
    lemma_pow2_adds(scale, behind);
    assert(s.units() * 255 == pow2(scale) * scaled) by (nonlinear_arith)
        requires
            s.units() == s.significand() * pow2(scale),
            scaled == s.significand() * 255,
    ;
    lemma_div_multiples_vanish_quotient(pow2(scale) as int, scaled, pow2(behind) as int);
    if behind > 24 {
        lemma_pow2_strictly_increases(24, behind);
    }
    assert(s.significand() < pow2(24));
    assert(scaled <= 255 * pow2(24) - 255);
    lemma_div_is_ordered(scaled, 255 * pow2(24) - 255, pow2(24) as int);
    assert((255 * pow2(24) - 255) / (pow2(24) as int) == 254);
    lemma_div_by_larger(scaled, pow2(24) as int, pow2(behind) as int);
}

/// Dividing a number that is not negative by more gives no more.
proof fn lemma_div_by_larger(x: int, small: int, large: int)
    requires
        0 <= x,
        0 < small <= large,
    ensures
        x / large <= x / small,
{
    vstd::arithmetic::div_mod::lemma_div_is_ordered_by_denominator(x, small, large);
}

/// Among the finite scalars, `<` and `==` compare the values: one scalar is
/// less than another exactly if it is fewer units of `2^-149`, and equal in
/// value exactly if it is as many.
pub proof fn lemma_order_is_by_value(a: Scalar, b: Scalar)
    requires
        a.finite(),
        b.finite(),
    ensures
        a.lt_spec(b) <==> a.units() < b.units(),
        a.le_spec(b) <==> a.units() <= b.units(),
        a.same_value_spec(b) <==> a.units() == b.units(),
{
    lemma_abs_units_sign(a);
    lemma_abs_units_sign(b);
    if a.magnitude() < b.magnitude() {
        lemma_abs_units_grow(a, b);
    } else if b.magnitude() < a.magnitude() {
        lemma_abs_units_grow(b, a);
    } else {
        assert(a.abs_units() == b.abs_units());
    }
}

/// The absolute value is zero for the two zeros and positive otherwise.
proof fn lemma_abs_units_sign(s: Scalar)
    requires
        s.finite(),
    ensures
        s.magnitude() == 0 ==> s.abs_units() == 0,
        s.magnitude() > 0 ==> s.abs_units() > 0,
{
    lemma_pow2_pos(s.scale());
    if s.magnitude() > 0 {
        assert(s.significand() > 0);
        lemma_mul_strict_inequality(0, s.significand(), pow2(s.scale()) as int);
        lemma_mul_is_commutative(s.significand(), pow2(s.scale()) as int);
    } else {
        assert(s.significand() == 0);
    }
}

/// Of two finite scalars, the one with the larger bits behind the sign has
/// the larger absolute value.
proof fn lemma_abs_units_grow(a: Scalar, b: Scalar)
    requires
        a.finite(),
        b.finite(),
        a.magnitude() < b.magnitude(),
    ensures
        a.abs_units() < b.abs_units(),
{
    lemma2_to64();
    let pa = pow2(a.scale()) as int;
    let pb = pow2(b.scale()) as int;
    lemma_pow2_pos(a.scale());
    lemma_pow2_pos(b.scale());
    if a.exponent() == b.exponent() {
        assert(a.fraction() < b.fraction());
        lemma_mul_strict_inequality(a.significand(), b.significand(), pa);
    } else {
        assert(a.exponent() < b.exponent());
        assert(b.significand() >= pow2(23));
        lemma_mul_inequality(pow2(23) as int, b.significand(), pb);
        if a.exponent() == 0 {
            assert(a.abs_units() == a.fraction() * 1) by {
                assert(pow2(0) == 1);
            }
            lemma_mul_inequality(1, pb, pow2(23) as int);
            lemma_mul_is_commutative(pb, pow2(23) as int);
        } else {
            assert(a.significand() < pow2(24));
            lemma_mul_strict_inequality(a.significand(), pow2(24) as int, pa);
            lemma_pow2_adds(1, a.scale());
            lemma_pow2_adds(23, 1);
            assert(pow2(24) * pa == pow2(23) * pow2(1 + a.scale())) by (nonlinear_arith)
                requires
                    pow2(24) == pow2(23) * pow2(1),
                    pow2(1 + a.scale()) == pow2(1) * pa,
            ;
            if 1 + a.scale() < b.scale() {
                lemma_pow2_strictly_increases(1 + a.scale(), b.scale());
            }
            lemma_mul_inequality(pow2(1 + a.scale()) as int, pb, pow2(23) as int);
            lemma_mul_is_commutative(pow2(1 + a.scale()) as int, pow2(23) as int);
            lemma_mul_is_commutative(pb, pow2(23) as int);
        }
    }
}

/// On the scalars that are no NaN, `<=` is a total order of the values:
/// any two compare, and the comparison carries over.
pub proof fn lemma_order_is_total(a: Scalar, b: Scalar, c: Scalar)
    requires
        !a.nan(),
        !b.nan(),
        !c.nan(),
    ensures
        a.le_spec(a),
        a.le_spec(b) || b.le_spec(a),
        a.le_spec(b) && b.le_spec(a) ==> a.same_value_spec(b),
        a.le_spec(b) && b.le_spec(c) ==> a.le_spec(c),
        a.lt_spec(b) <==> !b.le_spec(a),
{
}

/// The smaller of two scalars that are no NaN is one of them and is at
/// most either; likewise the larger is at least either.
pub proof fn lemma_min_max(a: Scalar, b: Scalar)
    requires
        !a.nan(),
        !b.nan(),
    ensures
        a.min_spec(b) == a || a.min_spec(b) == b,
        a.min_spec(b).le_spec(a) && a.min_spec(b).le_spec(b),
        a.max_spec(b) == a || a.max_spec(b) == b,
        a.le_spec(a.max_spec(b)) && b.le_spec(a.max_spec(b)),
{
}

} // verus!
