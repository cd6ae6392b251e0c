//! Double-precision numbers carried as their IEEE 754 bit patterns.
//!
//! Times, coordinates and thresholds are stored exactly as the caller gave
//! them. The store never computes with them; it only has to order them, and
//! ordering can be decided on the bit pattern alone.

use vstd::prelude::*;
use vstd::arithmetic::mul::{lemma_mul_inequality, lemma_mul_strict_inequality};
use vstd::arithmetic::power2::{lemma_pow2_pos, lemma_pow2_strictly_increases, lemma_pow2_unfold, pow2};

verus! {

/// The sign bit of a binary64 pattern.
pub const SIGN_BIT: u64 = 0x8000_0000_0000_0000;

/// The magnitude of positive infinity; every larger magnitude is a NaN.
pub const INFINITY_MAGNITUDE: u64 = 0x7ff0_0000_0000_0000;

/// The bit pattern of the number one.
pub const ONE: u64 = 0x3ff0_0000_0000_0000;

/// The number of values the 52 fraction bits can take.
pub const FRACTION_SIZE: u64 = 0x10_0000_0000_0000;

/// The size of the finite number with the given magnitude, counted in steps
/// of the smallest positive number, 2 to the power -1074.
///
/// A magnitude is an exponent field `e` above a fraction field `f`. With
/// `e == 0` the number is `f` steps; otherwise it is `(2^52 + f) * 2^(e - 1)`
/// steps.
pub open spec fn size_of(magnitude: int) -> int {
    let e = magnitude / (FRACTION_SIZE as int);
    let f = magnitude % (FRACTION_SIZE as int);
    if e == 0 {
        f
    } else {
        (FRACTION_SIZE + f) * pow2((e - 1) as nat)
    }
}

/// A binary64 value, held as its 64-bit pattern.
///
/// Two values compare equal with `==` when their patterns are the same, so
/// `-0` and `+0` differ and a NaN equals itself. The numeric order is given
/// by [`Double::gt`].
#[derive(Clone, Copy, Debug, PartialEq, Eq, Structural)]
pub struct Double {
    pub bits: u64,
}

impl Double {
    /// The pattern without its sign bit.
    pub open spec fn magnitude(self) -> int {
        if self.bits >= SIGN_BIT {
            self.bits - SIGN_BIT
        } else {
            self.bits as int
        }
    }

    /// Whether the sign bit is set.
    pub open spec fn sign_set(self) -> bool {
        self.bits >= SIGN_BIT
    }

    /// Whether the pattern is a NaN: all exponent bits set and a non-zero fraction.
    pub open spec fn is_nan(self) -> bool {
        self.magnitude() > INFINITY_MAGNITUDE
    }

    /// Whether the pattern is a finite number: neither an infinity nor a NaN.
    pub open spec fn is_finite(self) -> bool {
        self.magnitude() < INFINITY_MAGNITUDE
    }

    /// The finite number that the pattern denotes, counted in steps of the
    /// smallest positive number: the number itself times 2 to the power
    /// 1074, which is an integer.
    pub open spec fn steps(self) -> int {
        if self.sign_set() {
            -size_of(self.magnitude())
        } else {
            size_of(self.magnitude())
        }
    }

    /// The position of a number on the extended real line, as an integer.
    ///
    /// For patterns that are not NaN the numeric order of two values is the
    /// order of their ranks: magnitudes grow with the pattern, the sign bit
    /// mirrors them, and both zeros have rank 0.
    pub open spec fn rank(self) -> int {
        if self.sign_set() {
            -self.magnitude()
        } else {
            self.magnitude()
        }
    }

    /// `self > other` as numbers: false whenever either side is a NaN.
    pub open spec fn spec_gt(self, other: Double) -> bool {
        !self.is_nan() && !other.is_nan() && self.rank() > other.rank()
    }

    /// `self > 0` as a number.
    pub open spec fn spec_is_positive(self) -> bool {
        !self.is_nan() && self.rank() > 0
    }

    /// The number one.
    pub open spec fn spec_one() -> Double {
        Double { bits: ONE }
    }

    /// `0 <= self <= 1` as numbers.
    pub open spec fn spec_is_fraction(self) -> bool {
        !self.is_nan() && 0 <= self.rank() <= ONE
    }

    /// Wraps a bit pattern.
    pub fn from_bits(bits: u64) -> (r: Double)
        ensures
            r.bits == bits,
    {
        Double { bits }
    }

    /// The bit pattern.
    pub fn to_bits(self) -> (r: u64)
        ensures
            r == self.bits,
    {
        self.bits
    }

    /// Positive zero.
    pub fn zero() -> (r: Double)
        ensures
            r.bits == 0,
            r.rank() == 0,
            !r.is_nan(),
    {
        Double { bits: 0 }
    }

    fn magnitude_bits(self) -> (r: u64)
        ensures
            r == self.magnitude(),
    {
        if self.bits >= SIGN_BIT {
            self.bits - SIGN_BIT
        } else {
            self.bits
        }
    }

    /// The exponent field: the eleven bits below the sign bit.
    pub fn exponent_field(self) -> (r: u64)
        ensures
            r == self.magnitude() / (FRACTION_SIZE as int),
            r < 2048,
    {
        self.magnitude_bits() / FRACTION_SIZE
    }

    /// The fraction field: the lowest 52 bits.
    pub fn fraction_field(self) -> (r: u64)
        ensures
            r == self.magnitude() % (FRACTION_SIZE as int),
            r < FRACTION_SIZE,
    {
        self.magnitude_bits() % FRACTION_SIZE
    }

    /// Whether the value is a NaN.
    pub fn is_not_a_number(self) -> (r: bool)
        ensures
            r == self.is_nan(),
    {
        self.magnitude_bits() > INFINITY_MAGNITUDE
    }

    /// Numeric `self > other`.
    pub fn gt(self, other: Double) -> (r: bool)
        ensures
            r == self.spec_gt(other),
    {
        let a: u64 = self.magnitude_bits();
        let b: u64 = other.magnitude_bits();
        if a > INFINITY_MAGNITUDE || b > INFINITY_MAGNITUDE {
            return false;
        }
        let a_neg: bool = self.bits >= SIGN_BIT;
        let b_neg: bool = other.bits >= SIGN_BIT;
        if a_neg {
            b_neg && a < b
        } else if b_neg {
            a > 0 || b > 0
        } else {
            a > b
        }
    }

    /// Numeric `0 <= self <= 1`.
    pub fn is_fraction(self) -> (r: bool)
        ensures
            r == self.spec_is_fraction(),
    {
        self.bits <= ONE || self.bits == SIGN_BIT
    }

    /// Numeric `self > 0`.
    pub fn is_positive(self) -> (r: bool)
        ensures
            r == self.spec_is_positive(),
            r == self.spec_gt(Double { bits: 0 }),
    {
        self.bits > 0 && self.bits <= INFINITY_MAGNITUDE
    }
}

/// The numeric order is irreflexive and transitive, and a value above another
/// is never below it.
pub proof fn gt_is_strict_order(a: Double, b: Double, c: Double)
    ensures
        !a.spec_gt(a),
        a.spec_gt(b) ==> !b.spec_gt(a),
        a.spec_gt(b) && b.spec_gt(c) ==> a.spec_gt(c),
{
}

/// Of two finite magnitudes the larger denotes the larger number.
pub proof fn size_grows_with_magnitude(smaller: int, larger: int)
    requires
        0 <= smaller < larger < INFINITY_MAGNITUDE,
    ensures
        0 <= size_of(smaller) < size_of(larger),
{
    let p = FRACTION_SIZE as int;
    let e1 = smaller / p;
    let f1 = smaller % p;
    let e2 = larger / p;
    let f2 = larger % p;
    assert(smaller == p * e1 + f1 && 0 <= f1 < p);
    assert(larger == p * e2 + f2 && 0 <= f2 < p);
    assert(0 <= e1 <= e2);
    if e1 == e2 {
        assert(f1 < f2);
        if e1 > 0 {
            lemma_pow2_pos((e1 - 1) as nat);
            lemma_mul_strict_inequality(p + f1, p + f2, pow2((e1 - 1) as nat) as int);
            lemma_mul_inequality(0, p + f1, pow2((e1 - 1) as nat) as int);
        }
    } else {
        // The smaller number lies below 2^52 * 2^e1, the larger one not below it.
        let bound = p * pow2(e1 as nat);
        assert(pow2(0) == 1) by {
            lemma_pow2_unfold(1);
            vstd::arithmetic::power2::lemma2_to64();
        }
        if e1 == 0 {
            assert(size_of(smaller) < bound);
        } else {
            let low = pow2((e1 - 1) as nat) as int;
            lemma_pow2_pos((e1 - 1) as nat);
            lemma_pow2_unfold(e1 as nat);
            assert(pow2(e1 as nat) == 2 * low);
            lemma_mul_strict_inequality(p + f1, 2 * p, low);
            lemma_mul_inequality(0, p + f1, low);
            assert((2 * p) * low == p * (2 * low)) by (nonlinear_arith);
            assert(size_of(smaller) < bound);
        }
        let high = pow2((e2 - 1) as nat) as int;
        if e1 < e2 - 1 {
            lemma_pow2_strictly_increases(e1 as nat, (e2 - 1) as nat);
        }
        assert(pow2(e1 as nat) <= high);
        assert(p * pow2(e1 as nat) <= p * high) by (nonlinear_arith)
            requires
                pow2(e1 as nat) <= high,
                p > 0,
        ;
        lemma_mul_inequality(p, p + f2, high);
        assert(bound <= size_of(larger));
    }
}

/// The order that [`Double::gt`] decides is the order of the numbers: of two
/// finite values the one with the higher rank is the larger number, and two
/// finite values have the same rank exactly when they are the same number.
/// Both zeros are the number zero.
pub proof fn rank_orders_finite_values(a: Double, b: Double)
    requires
        a.is_finite(),
        b.is_finite(),
    ensures
        a.rank() < b.rank() <==> a.steps() < b.steps(),
        a.rank() == b.rank() <==> a.steps() == b.steps(),
        a.spec_gt(b) <==> a.steps() > b.steps(),
        a.spec_is_positive() <==> a.steps() > 0,
{
    let x = a.magnitude();
    let y = b.magnitude();
    assert(size_of(0) == 0);
    if x < y {
        size_grows_with_magnitude(x, y);
    } else if y < x {
        size_grows_with_magnitude(y, x);
    }
    if 0 < x {
        size_grows_with_magnitude(0, x);
    }
    if 0 < y {
        size_grows_with_magnitude(0, y);
    }
}

/// A fraction is a finite value between zero and one: the number one is
/// 2 to the power 1074 steps.
pub proof fn fractions_lie_between_zero_and_one(a: Double)
    ensures
        Double::spec_one().steps() == pow2(1074),
        a.spec_is_fraction() <==> (a.is_finite() && 0 <= a.steps() <= pow2(1074)),
{
    let one = Double { bits: ONE };
    assert(one.magnitude() / (FRACTION_SIZE as int) == 1023);
    assert(one.magnitude() % (FRACTION_SIZE as int) == 0);
    assert(pow2(52) == FRACTION_SIZE) by {
        vstd::arithmetic::power2::lemma2_to64();
        vstd::arithmetic::power2::lemma2_to64_rest();
    }
    vstd::arithmetic::power2::lemma_pow2_adds(52, 1022);
    assert(one.steps() == pow2(1074));
    if a.is_finite() {
        rank_orders_finite_values(a, one);
        rank_orders_finite_values(a, Double { bits: 0 });
        assert(size_of(0) == 0);
    }
}

/// The infinities lie beyond every finite value: positive infinity above,
/// negative infinity below.
pub proof fn infinities_bound_finite_values(infinity: Double, finite: Double)
    requires
        infinity.magnitude() == INFINITY_MAGNITUDE,
        finite.is_finite(),
    ensures
        !infinity.sign_set() ==> infinity.spec_gt(finite) && infinity.spec_is_positive(),
        infinity.sign_set() ==> finite.spec_gt(infinity) && !infinity.spec_is_positive(),
{
}

} // verus!
